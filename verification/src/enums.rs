//! Plain enumerations for market side, tick action, symbology, schema,
//! encoding, and compression, with their numeric and textual codes.

use vstd::prelude::*;

verus! {

/// A side of the market, either bid or ask.
#[derive(Debug, Clone, Copy, PartialEq, Eq, Structural)]
pub enum Side {
    Ask,
    Bid,
}

impl Side {
    /// The character code of this side.
    pub open spec fn char_spec(self) -> char {
        match self {
            Side::Ask => 'A',
            Side::Bid => 'B',
        }
    }

    /// Converts the side to its character representation.
    pub fn as_char(self) -> (c: char)
        ensures
            c == self.char_spec(),
    {
        match self {
            Side::Ask => 'A',
            Side::Bid => 'B',
        }
    }

    /// Converts the side to the byte stored in a record's `side` field.
    pub fn as_byte(self) -> (b: u8)
        ensures
            b == self.char_spec() as u8,
    {
        match self {
            Side::Ask => 65,
            Side::Bid => 66,
        }
    }
}

/// A tick action.
#[derive(Debug, Clone, Copy, PartialEq, Eq, Structural)]
pub enum Action {
    Modify,
    Trade,
    Cancel,
    Add,
    Status,
    Update,
}

impl Action {
    /// The character code of this action.
    pub open spec fn char_spec(self) -> char {
        match self {
            Action::Modify => 'M',
            Action::Trade => 'T',
            Action::Cancel => 'C',
            Action::Add => 'A',
            Action::Status => 'S',
            Action::Update => 'U',
        }
    }

    /// Converts the action to its character representation.
    pub fn as_char(self) -> (c: char)
        ensures
            c == self.char_spec(),
    {
        match self {
            Action::Modify => 'M',
            Action::Trade => 'T',
            Action::Cancel => 'C',
            Action::Add => 'A',
            Action::Status => 'S',
            Action::Update => 'U',
        }
    }

    /// Converts the action to the byte stored in a record's `action` field.
    pub fn as_byte(self) -> (b: u8)
        ensures
            b == self.char_spec() as u8,
    {
        match self {
            Action::Modify => 77,
            Action::Trade => 84,
            Action::Cancel => 67,
            Action::Add => 65,
            Action::Status => 83,
            Action::Update => 85,
        }
    }
}

/// A symbology type.
#[derive(Debug, Clone, Copy, PartialEq, Eq, Structural)]
pub enum SType {
    ProductId,
    Native,
    Smart,
}

impl SType {
    /// The numeric code of this symbology type.
    pub open spec fn code_spec(self) -> u8 {
        match self {
            SType::ProductId => 0,
            SType::Native => 1,
            SType::Smart => 2,
        }
    }

    /// Converts the symbology type to its numeric code.
    pub fn as_code(self) -> (c: u8)
        ensures
            c == self.code_spec(),
    {
        match self {
            SType::ProductId => 0,
            SType::Native => 1,
            SType::Smart => 2,
        }
    }

    /// Looks up the symbology type with the given numeric code.
    pub fn try_from_code(c: u8) -> (r: Option<SType>)
        ensures
            r matches Some(s) ==> s.code_spec() == c,
            r is Some <==> c <= 2,
    {
        match c {
            0 => Some(SType::ProductId),
            1 => Some(SType::Native),
            2 => Some(SType::Smart),
            _ => None,
        }
    }

    /// The `str` representation of this symbology type.
    pub open spec fn str_spec(self) -> Seq<char> {
        match self {
            SType::Native => "native"@,
            SType::Smart => "smart"@,
            SType::ProductId => "product_id"@,
        }
    }

    /// Convert the symbology type to its `str` representation.
    pub fn as_str(&self) -> (r: &'static str)
        ensures
            r@ == self.str_spec(),
    {
        match self {
            SType::Native => "native",
            SType::Smart => "smart",
            SType::ProductId => "product_id",
        }
    }
}

/// A data record schema.
#[derive(Debug, Clone, Copy, PartialEq, Eq, Structural)]
pub enum Schema {
    /// Market by order.
    Mbo,
    /// Market by price with a book depth of 1.
    Mbp1,
    /// Market by price with a book depth of 10.
    Mbp10,
    /// Combination of trades and quotes at a book depth of 1.
    Tbbo,
    /// All trade events.
    Trades,
    /// Open, high, low, close, and volume at a 1-second cadence.
    Ohlcv1S,
    /// Open, high, low, close, and volume at a 1-minute cadence.
    Ohlcv1M,
    /// Open, high, low, close, and volume at an hourly cadence.
    Ohlcv1H,
    /// Open, high, low, close, and volume at a daily cadence.
    Ohlcv1D,
    /// Symbol definitions.
    Definition,
    /// Summary statistics.
    Statistics,
    /// Exchange status.
    Status,
}

impl Schema {
    /// The numeric code of this schema.
    pub open spec fn code_spec(self) -> u16 {
        match self {
            Schema::Mbo => 0,
            Schema::Mbp1 => 1,
            Schema::Mbp10 => 2,
            Schema::Tbbo => 3,
            Schema::Trades => 4,
            Schema::Ohlcv1S => 5,
            Schema::Ohlcv1M => 6,
            Schema::Ohlcv1H => 7,
            Schema::Ohlcv1D => 8,
            Schema::Definition => 9,
            Schema::Statistics => 10,
            Schema::Status => 11,
        }
    }

    /// Converts the schema to its numeric code.
    pub fn as_code(self) -> (c: u16)
        ensures
            c == self.code_spec(),
    {
        match self {
            Schema::Mbo => 0,
            Schema::Mbp1 => 1,
            Schema::Mbp10 => 2,
            Schema::Tbbo => 3,
            Schema::Trades => 4,
            Schema::Ohlcv1S => 5,
            Schema::Ohlcv1M => 6,
            Schema::Ohlcv1H => 7,
            Schema::Ohlcv1D => 8,
            Schema::Definition => 9,
            Schema::Statistics => 10,
            Schema::Status => 11,
        }
    }

    /// Looks up the schema with the given numeric code.
    pub fn try_from_code(c: u16) -> (r: Option<Schema>)
        ensures
            r matches Some(s) ==> s.code_spec() == c,
            r is Some <==> c <= 11,
    {
        match c {
            0 => Some(Schema::Mbo),
            1 => Some(Schema::Mbp1),
            2 => Some(Schema::Mbp10),
            3 => Some(Schema::Tbbo),
            4 => Some(Schema::Trades),
            5 => Some(Schema::Ohlcv1S),
            6 => Some(Schema::Ohlcv1M),
            7 => Some(Schema::Ohlcv1H),
            8 => Some(Schema::Ohlcv1D),
            9 => Some(Schema::Definition),
            10 => Some(Schema::Statistics),
            11 => Some(Schema::Status),
            _ => None,
        }
    }

    /// The `str` representation of this schema.
    pub open spec fn str_spec(self) -> Seq<char> {
        match self {
            Schema::Mbo => "mbo"@,
            Schema::Mbp1 => "mbp-1"@,
            Schema::Mbp10 => "mbp-10"@,
            Schema::Tbbo => "tbbo"@,
            Schema::Trades => "trades"@,
            Schema::Ohlcv1S => "ohlcv-1s"@,
            Schema::Ohlcv1M => "ohlcv-1m"@,
            Schema::Ohlcv1H => "ohlcv-1h"@,
            Schema::Ohlcv1D => "ohlcv-1d"@,
            Schema::Definition => "definition"@,
            Schema::Statistics => "statistics"@,
            Schema::Status => "status"@,
        }
    }

    /// Convert the schema to its `str` representation.
    pub fn as_str(&self) -> (r: &'static str)
        ensures
            r@ == self.str_spec(),
    {
        match self {
            Schema::Mbo => "mbo",
            Schema::Mbp1 => "mbp-1",
            Schema::Mbp10 => "mbp-10",
            Schema::Tbbo => "tbbo",
            Schema::Trades => "trades",
            Schema::Ohlcv1S => "ohlcv-1s",
            Schema::Ohlcv1M => "ohlcv-1m",
            Schema::Ohlcv1H => "ohlcv-1h",
            Schema::Ohlcv1D => "ohlcv-1d",
            Schema::Definition => "definition",
            Schema::Statistics => "statistics",
            Schema::Status => "status",
        }
    }
}

/// A data encoding format.
#[derive(Debug, Clone, Copy, PartialEq, Eq, Structural)]
pub enum Encoding {
    /// Binary encoding with Zstandard compression.
    Dbz,
    /// Comma-separated values.
    Csv,
    /// JavaScript object notation.
    Json,
}

impl Encoding {
    /// The numeric code of this encoding.
    pub open spec fn code_spec(self) -> u8 {
        match self {
            Encoding::Dbz => 0,
            Encoding::Csv => 1,
            Encoding::Json => 2,
        }
    }

    /// Converts the encoding to its numeric code.
    pub fn as_code(self) -> (c: u8)
        ensures
            c == self.code_spec(),
    {
        match self {
            Encoding::Dbz => 0,
            Encoding::Csv => 1,
            Encoding::Json => 2,
        }
    }

    /// Looks up the encoding with the given numeric code.
    pub fn try_from_code(c: u8) -> (r: Option<Encoding>)
        ensures
            r matches Some(e) ==> e.code_spec() == c,
            r is Some <==> c <= 2,
    {
        match c {
            0 => Some(Encoding::Dbz),
            1 => Some(Encoding::Csv),
            2 => Some(Encoding::Json),
            _ => None,
        }
    }

    /// The `str` representation of this encoding.
    pub open spec fn str_spec(self) -> Seq<char> {
        match self {
            Encoding::Dbz => "dbz"@,
            Encoding::Csv => "csv"@,
            Encoding::Json => "json"@,
        }
    }

    /// Convert the encoding to its `str` representation.
    pub fn as_str(&self) -> (r: &'static str)
        ensures
            r@ == self.str_spec(),
    {
        match self {
            Encoding::Dbz => "dbz",
            Encoding::Csv => "csv",
            Encoding::Json => "json",
        }
    }
}

/// A compression format, or none if uncompressed.
#[derive(Debug, Clone, Copy, PartialEq, Eq, Structural)]
pub enum Compression {
    /// Uncompressed.
    Uncompressed,
    /// Zstandard compression.
    ZStd,
}

impl Compression {
    /// The numeric code of this compression format.
    pub open spec fn code_spec(self) -> u8 {
        match self {
            Compression::Uncompressed => 0,
            Compression::ZStd => 1,
        }
    }

    /// Converts the compression format to its numeric code.
    pub fn as_code(self) -> (c: u8)
        ensures
            c == self.code_spec(),
    {
        match self {
            Compression::Uncompressed => 0,
            Compression::ZStd => 1,
        }
    }

    /// Looks up the compression format with the given numeric code.
    pub fn try_from_code(c: u8) -> (r: Option<Compression>)
        ensures
            r matches Some(f) ==> f.code_spec() == c,
            r is Some <==> c <= 1,
    {
        match c {
            0 => Some(Compression::Uncompressed),
            1 => Some(Compression::ZStd),
            _ => None,
        }
    }
}

} // verus!
