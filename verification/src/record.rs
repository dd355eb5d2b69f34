//! The common record header, the catalog trait binding each record type to
//! its runtime type tag, and the tag-checked protocol that turns raw byte
//! spans into typed record values.
//!
//! Every record is a fixed-layout binary message: a 16-byte header followed
//! by the payload fields in declared order, all little-endian, with no
//! padding between fields beyond the explicit filler fields. Rather than
//! reinterpreting memory, the protocol decodes each fixed-width field from
//! its explicit byte offset, which the contracts below tie exactly to the
//! serialized form of the record.

use crate::error::Error;
use crate::codec::{
    get_i64_le, get_u16_le, get_u32_le, get_u64_le, get_u8, put_i64_le, put_u16_le, put_u32_le,
    put_u64_le, put_u8, lemma_auto_spec_i64_to_from_le_bytes, spec_i64_from_le_bytes,
    spec_i64_to_le_bytes,
};
use vstd::bytes::*;
use vstd::prelude::*;

pub use crate::definition::{Imbalance, InstrumentDefMsg};
pub use crate::market::{Mbp10Msg, Mbp1Msg, MboMsg, OhlcvMsg, TbboMsg, TradeMsg};
pub use crate::status::{GatewayErrorMsg, StatusMsg, SymbolMappingMsg};

verus! {

/// The size of [`RecordHeader`] in bytes.
pub const HEADER_SIZE: usize = 16;

/// The `rtype` tag of [`MboMsg`].
pub const TICK_MSG_TYPE_ID: u8 = 0xA0;

/// The largest book depth expressible by a depth-derived tag; tags
/// `0x00..=0x0F` are reserved for book-level record types.
pub const MAX_UA_BOOK_LEVEL: u8 = 0xF;

/// The `rtype` tag of [`OhlcvMsg`].
pub const OHLCV_TYPE_ID: u8 = 0x11;

/// The `rtype` tag of [`StatusMsg`].
pub const STATUS_MSG_TYPE_ID: u8 = 0x12;

/// The `rtype` tag of [`InstrumentDefMsg`].
pub const INSTRUMENT_DEF_MSG_TYPE_ID: u8 = 0x13;

/// The `rtype` tag of [`Imbalance`].
pub const IMBALANCE_TYPE_ID: u8 = 0x14;

/// The `rtype` tag of [`GatewayErrorMsg`].
pub const GATEWAY_ERROR_MSG_TYPE_ID: u8 = 0x15;

/// The `rtype` tag of [`SymbolMappingMsg`].
pub const SYMBOL_MAPPING_MSG_TYPE_ID: u8 = 0x16;

/// Common data for all records: the fixed 16-byte prefix.
#[derive(Clone, Copy, Debug, PartialEq, Eq, Structural)]
pub struct RecordHeader {
    /// The length of the message in 32-bit words.
    pub length: u8,
    /// The record type tag; values `0x00..=0x0F` give the book depth of a
    /// book-level record, and every other record type has a fixed tag.
    pub rtype: u8,
    /// The ID of the publisher of the data.
    pub publisher_id: u16,
    /// The product ID assigned by the venue.
    pub product_id: u32,
    /// The matching-engine event timestamp in nanoseconds since the UNIX
    /// epoch; unsigned 64-bit, never to be narrowed.
    pub ts_event: u64,
}

impl RecordHeader {
    /// The serialized form of the header: both fixed-tag bytes, then the
    /// publisher, product, and timestamp in little-endian order.
    pub open spec fn as_bytes(self) -> Seq<u8> {
        seq![self.length, self.rtype] + spec_u16_to_le_bytes(self.publisher_id)
            + spec_u32_to_le_bytes(self.product_id) + spec_u64_to_le_bytes(self.ts_event)
    }

    /// The serialized header is exactly [`HEADER_SIZE`] bytes.
    pub proof fn lemma_len(self)
        ensures
            self.as_bytes().len() == HEADER_SIZE,
    {
        lemma_auto_spec_u16_to_from_le_bytes();
        lemma_auto_spec_u32_to_from_le_bytes();
        lemma_auto_spec_u64_to_from_le_bytes();
    }

    /// Each field of the header can be read back from its serialized form
    /// at its declared offset.
    pub proof fn lemma_fields(self)
        ensures
            self.as_bytes().len() == HEADER_SIZE,
            self.as_bytes()[0] == self.length,
            self.as_bytes()[1] == self.rtype,
            spec_u16_from_le_bytes(self.as_bytes().subrange(2, 4)) == self.publisher_id,
            spec_u32_from_le_bytes(self.as_bytes().subrange(4, 8)) == self.product_id,
            spec_u64_from_le_bytes(self.as_bytes().subrange(8, 16)) == self.ts_event,
    {
        lemma_auto_spec_u16_to_from_le_bytes();
        lemma_auto_spec_u32_to_from_le_bytes();
        lemma_auto_spec_u64_to_from_le_bytes();
        assert(self.as_bytes().subrange(2, 4) =~= spec_u16_to_le_bytes(self.publisher_id));
        assert(self.as_bytes().subrange(4, 8) =~= spec_u32_to_le_bytes(self.product_id));
        assert(self.as_bytes().subrange(8, 16) =~= spec_u64_to_le_bytes(self.ts_event));
    }

    /// Two headers with the same serialized form are the same header.
    pub proof fn lemma_injective(self, other: Self)
        requires
            self.as_bytes() == other.as_bytes(),
        ensures
            self == other,
    {
        self.lemma_fields();
        other.lemma_fields();
    }

    /// Serializes the header.
    pub fn to_bytes(&self) -> (r: Vec<u8>)
        ensures
            r@ == self.as_bytes(),
    {
        let mut out: Vec<u8> = Vec::new();
        put_u8(&mut out, self.length);
        put_u8(&mut out, self.rtype);
        put_u16_le(&mut out, self.publisher_id);
        put_u32_le(&mut out, self.product_id);
        put_u64_le(&mut out, self.ts_event);
        assert(out@ =~= self.as_bytes());
        out
    }

    /// Reads a header back from the front of `bytes`.
    pub fn from_bytes(bytes: &[u8]) -> (r: Self)
        requires
            HEADER_SIZE <= bytes@.len(),
        ensures
            r.as_bytes() == bytes@.take(HEADER_SIZE as int),
            r.length == bytes@[0],
            r.rtype == bytes@[1],
    {
        let r = RecordHeader {
            length: get_u8(bytes, 0),
            rtype: get_u8(bytes, 1),
            publisher_id: get_u16_le(bytes, 2),
            product_id: get_u32_le(bytes, 4),
            ts_event: get_u64_le(bytes, 8),
        };
        proof {
            lemma_auto_spec_u16_to_from_le_bytes();
            lemma_auto_spec_u32_to_from_le_bytes();
            lemma_auto_spec_u64_to_from_le_bytes();
            assert(r.as_bytes() =~= bytes@.take(HEADER_SIZE as int));
        }
        r
    }
}

/// One level of a book: bid and ask price, size, and order count. Embedded
/// as a fixed-length array inside book-level record types, where the array
/// length equals the record type's book depth.
#[derive(Clone, Copy, Debug, PartialEq, Eq, Structural)]
pub struct BidAskPair {
    /// The bid price as a signed fixed-point integer, 1 unit = 1e-9.
    pub bid_px: i64,
    /// The ask price as a signed fixed-point integer, 1 unit = 1e-9.
    pub ask_px: i64,
    /// The bid size.
    pub bid_sz: u32,
    /// The ask size.
    pub ask_sz: u32,
    /// The bid order count.
    pub bid_ct: u32,
    /// The ask order count.
    pub ask_ct: u32,
}

/// The size of a serialized [`BidAskPair`] in bytes.
pub const BID_ASK_PAIR_SIZE: usize = 32;

impl BidAskPair {
    /// The serialized form of one book level.
    pub open spec fn as_bytes(self) -> Seq<u8> {
        spec_i64_to_le_bytes(self.bid_px) + spec_i64_to_le_bytes(self.ask_px)
            + spec_u32_to_le_bytes(self.bid_sz) + spec_u32_to_le_bytes(self.ask_sz)
            + spec_u32_to_le_bytes(self.bid_ct) + spec_u32_to_le_bytes(self.ask_ct)
    }

    /// The serialized level is exactly [`BID_ASK_PAIR_SIZE`] bytes.
    pub proof fn lemma_len(self)
        ensures
            self.as_bytes().len() == BID_ASK_PAIR_SIZE,
    {
        lemma_auto_spec_i64_to_from_le_bytes();
        lemma_auto_spec_u32_to_from_le_bytes();
    }

    /// Each field of a book level can be read back from its serialized form
    /// at its declared offset.
    pub proof fn lemma_fields(self)
        ensures
            self.as_bytes().len() == BID_ASK_PAIR_SIZE,
            spec_i64_from_le_bytes(self.as_bytes().subrange(0, 8)) == self.bid_px,
            spec_i64_from_le_bytes(self.as_bytes().subrange(8, 16)) == self.ask_px,
            spec_u32_from_le_bytes(self.as_bytes().subrange(16, 20)) == self.bid_sz,
            spec_u32_from_le_bytes(self.as_bytes().subrange(20, 24)) == self.ask_sz,
            spec_u32_from_le_bytes(self.as_bytes().subrange(24, 28)) == self.bid_ct,
            spec_u32_from_le_bytes(self.as_bytes().subrange(28, 32)) == self.ask_ct,
    {
        lemma_auto_spec_i64_to_from_le_bytes();
        lemma_auto_spec_u32_to_from_le_bytes();
        assert(self.as_bytes().subrange(0, 8) =~= spec_i64_to_le_bytes(self.bid_px));
        assert(self.as_bytes().subrange(8, 16) =~= spec_i64_to_le_bytes(self.ask_px));
        assert(self.as_bytes().subrange(16, 20) =~= spec_u32_to_le_bytes(self.bid_sz));
        assert(self.as_bytes().subrange(20, 24) =~= spec_u32_to_le_bytes(self.ask_sz));
        assert(self.as_bytes().subrange(24, 28) =~= spec_u32_to_le_bytes(self.bid_ct));
        assert(self.as_bytes().subrange(28, 32) =~= spec_u32_to_le_bytes(self.ask_ct));
    }

    /// Two book levels with the same serialized form are the same level.
    pub proof fn lemma_injective(self, other: Self)
        requires
            self.as_bytes() == other.as_bytes(),
        ensures
            self == other,
    {
        self.lemma_fields();
        other.lemma_fields();
    }

    /// Appends the serialized level to `out`.
    pub fn write_bytes(&self, out: &mut Vec<u8>)
        ensures
            final(out)@ == old(out)@ + self.as_bytes(),
    {
        put_i64_le(out, self.bid_px);
        put_i64_le(out, self.ask_px);
        put_u32_le(out, self.bid_sz);
        put_u32_le(out, self.ask_sz);
        put_u32_le(out, self.bid_ct);
        put_u32_le(out, self.ask_ct);
        assert(out@ =~= old(out)@ + self.as_bytes());
    }

    /// Reads a book level back from `bytes` at offset `at`.
    pub fn from_bytes(bytes: &[u8], at: usize) -> (r: Self)
        requires
            at + BID_ASK_PAIR_SIZE <= bytes@.len(),
        ensures
            r.as_bytes() == bytes@.subrange(at as int, at as int + BID_ASK_PAIR_SIZE as int),
    {
        let _n = bytes.len();
        let r = BidAskPair {
            bid_px: get_i64_le(bytes, at),
            ask_px: get_i64_le(bytes, at + 8),
            bid_sz: get_u32_le(bytes, at + 16),
            ask_sz: get_u32_le(bytes, at + 20),
            bid_ct: get_u32_le(bytes, at + 24),
            ask_ct: get_u32_le(bytes, at + 28),
        };
        proof {
            lemma_auto_spec_i64_to_from_le_bytes();
            lemma_auto_spec_u32_to_from_le_bytes();
            assert(r.as_bytes() =~= bytes@.subrange(
                at as int,
                at as int + BID_ASK_PAIR_SIZE as int,
            ));
        }
        r
    }
}

/// The catalog trait: binds each record type to its runtime type tag, its
/// fixed serialized size, and its exact serialized form.
///
/// The serialized form of every implementing type starts with the
/// serialized common header, so the first bytes of any record can be read
/// back as a [`RecordHeader`]; `lemma_header_prefix` states that layout
/// invariant, and `lemma_injective` states that the serialized form
/// determines the record, which is what makes decoding after serializing
/// the identity.
pub trait ConstTypeId: Sized {
    /// The value of the header's `rtype` field for this record type: its
    /// fixed tag, or its book depth for book-level record types.
    spec fn type_id_spec() -> u8;

    /// The fixed serialized size of this record type in bytes.
    spec fn size_spec() -> nat;

    /// The serialized form of this record.
    spec fn as_bytes(self) -> Seq<u8>;

    /// The common header of this record.
    spec fn header_spec(self) -> RecordHeader;

    /// The name of this record type, carried by conversion errors.
    spec fn type_label_spec() -> Seq<char>;

    /// Returns the tag of this record type.
    fn type_id() -> (r: u8)
        ensures
            r == Self::type_id_spec(),
    ;

    /// Returns the serialized size of this record type in bytes.
    fn size_of_record() -> (r: usize)
        ensures
            r == Self::size_spec(),
    ;

    /// Returns the name of this record type.
    fn type_label() -> (r: &'static str)
        ensures
            r@ == Self::type_label_spec(),
    ;

    /// Borrows the common header of this record.
    fn header(&self) -> (h: &RecordHeader)
        ensures
            *h == self.header_spec(),
    ;

    /// Serializes this record.
    fn to_bytes(&self) -> (r: Vec<u8>)
        ensures
            r@ == self.as_bytes(),
    ;

    /// Reads a record of this type back from the front of `bytes`, without
    /// consulting the tag: the result is the unique record whose serialized
    /// form is the leading bytes of the span.
    fn from_bytes(bytes: &[u8]) -> (r: Self)
        requires
            Self::size_spec() <= bytes@.len(),
        ensures
            r.as_bytes() == bytes@.take(Self::size_spec() as int),
            r.header_spec().rtype == bytes@[1],
    ;

    /// Every record of this type is at least a header long.
    proof fn lemma_size_bounds()
        ensures
            HEADER_SIZE <= Self::size_spec(),
    ;

    /// The serialized record is exactly `size_spec()` bytes.
    proof fn lemma_size(self)
        ensures
            self.as_bytes().len() == Self::size_spec(),
    ;

    /// Layout invariant: the serialized record starts with its serialized
    /// header, so the tag stands at byte 1.
    proof fn lemma_header_prefix(self)
        ensures
            self.as_bytes().take(HEADER_SIZE as int) == self.header_spec().as_bytes(),
            self.as_bytes()[1] == self.header_spec().rtype,
    ;

    /// Two records of this type with the same serialized form are the same
    /// record.
    proof fn lemma_injective(self, other: Self)
        requires
            self.as_bytes() == other.as_bytes(),
        ensures
            self == other,
    ;
}

/// A record value is well formed when its header carries its own type's
/// registered tag; records decoded through a successful tag check are
/// always well formed.
pub open spec fn record_wf<T: ConstTypeId>(v: T) -> bool {
    v.header_spec().rtype == T::type_id_spec()
}

/// Round-trip identity: a record read back from the serialization of `v`
/// equals `v`. The hypothesis is exactly what `from_bytes` ensures when it
/// is handed the bytes that `to_bytes` produced for `v`.
pub proof fn lemma_round_trip<T: ConstTypeId>(v: T, r: T)
    requires
        r.as_bytes() == v.as_bytes().take(T::size_spec() as int),
    ensures
        r == v,
{
    v.lemma_size();
    assert(v.as_bytes().take(T::size_spec() as int) =~= v.as_bytes());
    r.lemma_injective(v);
}

/// Tag fidelity: the tag byte in the serialization of a well-formed record
/// of type `T` is `T`'s registered tag.
pub proof fn lemma_tag_fidelity<T: ConstTypeId>(v: T)
    requires
        record_wf(v),
    ensures
        v.as_bytes()[1] == T::type_id_spec(),
{
    v.lemma_header_prefix();
}

/// Negative lookup: the serialization of a well-formed record of type `U`
/// never carries the tag of a different record type `T`, so probing it for
/// `T` always yields "no match" and never a structurally invalid `T`.
pub proof fn lemma_negative_lookup<T: ConstTypeId, U: ConstTypeId>(u: U)
    requires
        record_wf(u),
        T::type_id_spec() != U::type_id_spec(),
    ensures
        u.as_bytes()[1] != T::type_id_spec(),
{
    lemma_tag_fidelity(u);
}

/// Write-through: a record read back from a buffer just after `v` was
/// written over its front equals `v`, whatever bytes follow. The hypothesis
/// is exactly what `from_bytes` ensures on the buffer that
/// `transmute_record_mut` leaves behind.
pub proof fn lemma_write_through<T: ConstTypeId>(v: T, rest: Seq<u8>, r: T)
    requires
        r.as_bytes() == (v.as_bytes() + rest).take(T::size_spec() as int),
    ensures
        r == v,
{
    v.lemma_size();
    assert((v.as_bytes() + rest).take(T::size_spec() as int) =~= v.as_bytes());
    r.lemma_injective(v);
}

/// Depth-tag uniqueness: the book-level record types report their book
/// depths 0, 1, and 10 as tags, and no fixed-tag record type has a tag in
/// the reserved range `0x00..=0x0F`.
pub proof fn lemma_depth_tags()
    ensures
        TradeMsg::type_id_spec() == 0,
        Mbp1Msg::type_id_spec() == 1,
        Mbp10Msg::type_id_spec() == 10,
        MboMsg::type_id_spec() > MAX_UA_BOOK_LEVEL,
        OhlcvMsg::type_id_spec() > MAX_UA_BOOK_LEVEL,
        StatusMsg::type_id_spec() > MAX_UA_BOOK_LEVEL,
        InstrumentDefMsg::type_id_spec() > MAX_UA_BOOK_LEVEL,
        Imbalance::type_id_spec() > MAX_UA_BOOK_LEVEL,
        GatewayErrorMsg::type_id_spec() > MAX_UA_BOOK_LEVEL,
        SymbolMappingMsg::type_id_spec() > MAX_UA_BOOK_LEVEL,
{
}

/// Converts a reference to a record into a reference to its common header,
/// the front of the record.
pub fn transmute_into_header<T: ConstTypeId>(record: &T) -> (h: &RecordHeader)
    ensures
        *h == record.header_spec(),
{
    record.header()
}

/// Reads the header from the front of a byte span holding a complete
/// record. Returns the header only when the record size it declares,
/// `length` 32-bit words, fits within the span that was actually supplied;
/// a span too small even for a header is a caller bug and is ruled out by
/// contract rather than tolerated.
pub fn transmute_header_bytes(bytes: &[u8]) -> (r: Option<RecordHeader>)
    requires
        HEADER_SIZE <= bytes@.len(),
    ensures
        match r {
            Some(h) => {
                &&& h.as_bytes() == bytes@.take(HEADER_SIZE as int)
                &&& h.length == bytes@[0]
                &&& h.rtype == bytes@[1]
                &&& 4 * (bytes@[0] as int) <= bytes@.len()
            },
            None => 4 * (bytes@[0] as int) > bytes@.len(),
        },
{
    let h = RecordHeader::from_bytes(bytes);
    if (h.length as usize) * 4 > bytes.len() {
        None
    } else {
        Some(h)
    }
}

/// Reads a record of type `T` from the front of a byte span at least
/// `T::size_of_record()` long — a shorter span is a caller bug and is ruled
/// out by contract. The tag at byte 1 decides: a match yields the decoded
/// record, and a mismatch is a negative lookup, not an error.
pub fn transmute_record_bytes<T: ConstTypeId>(bytes: &[u8]) -> (r: Option<T>)
    requires
        T::size_spec() <= bytes@.len(),
    ensures
        match r {
            Some(rec) => {
                &&& bytes@[1] == T::type_id_spec()
                &&& rec.as_bytes() == bytes@.take(T::size_spec() as int)
                &&& record_wf(rec)
            },
            None => bytes@[1] != T::type_id_spec(),
        },
{
    proof {
        T::lemma_size_bounds();
    }
    if get_u8(bytes, 1) == T::type_id() {
        Some(T::from_bytes(bytes))
    } else {
        None
    }
}

/// Reads a record of type `T` from a byte span whose header was already
/// read back — the tag is taken from the header reference, and the span is
/// assumed, not re-checked, to be at least `T::size_of_record()` long,
/// a precondition the caller must uphold.
pub fn transmute_record<T: ConstTypeId>(header: &RecordHeader, bytes: &[u8]) -> (r: Option<T>)
    requires
        header.as_bytes() == bytes@.take(HEADER_SIZE as int),
        T::size_spec() <= bytes@.len(),
    ensures
        match r {
            Some(rec) => {
                &&& header.rtype == T::type_id_spec()
                &&& rec.as_bytes() == bytes@.take(T::size_spec() as int)
                &&& record_wf(rec)
            },
            None => header.rtype != T::type_id_spec(),
        },
{
    proof {
        T::lemma_size_bounds();
        header.lemma_fields();
        assert(bytes@[1] == bytes@.take(HEADER_SIZE as int)[1]);
    }
    if header.rtype == T::type_id() {
        Some(T::from_bytes(bytes))
    } else {
        None
    }
}

/// The writable counterpart of [`transmute_record`]: where the tag in the
/// already-read header matches `T`, the given record value is written
/// through over the front of the same buffer, and any trailing bytes stay
/// as they were; a mismatched tag leaves the buffer untouched. As in
/// [`transmute_record`], the buffer is assumed, not re-checked, to be at
/// least `T::size_of_record()` long.
pub fn transmute_record_mut<T: ConstTypeId>(
    header: &RecordHeader,
    bytes: &mut Vec<u8>,
    record: &T,
) -> (ok: bool)
    requires
        header.as_bytes() == old(bytes)@.take(HEADER_SIZE as int),
        T::size_spec() <= old(bytes)@.len(),
    ensures
        ok <==> header.rtype == T::type_id_spec(),
        ok ==> final(bytes)@ == record.as_bytes() + old(bytes)@.skip(T::size_spec() as int),
        !ok ==> final(bytes)@ == old(bytes)@,
{
    if header.rtype == T::type_id() {
        let mut tail = bytes.split_off(T::size_of_record());
        let mut out = record.to_bytes();
        out.append(&mut tail);
        *bytes = out;
        proof {
            assert(bytes@ =~= record.as_bytes() + old(bytes)@.skip(T::size_spec() as int));
        }
        true
    } else {
        false
    }
}

/// Owning extraction: produces a standalone copy of a record of type `T`
/// from an opaque, possibly absent handle to the header of the record
/// standing at the front of `bytes`. An absent handle fails with the
/// null-pointer error before anything is read; a tag mismatch fails with a
/// type-conversion error naming the attempted target type.
pub fn try_record_from_handle<T: ConstTypeId>(handle: Option<&RecordHeader>, bytes: &[u8]) -> (r:
    Result<T, Error>)
    requires
        handle matches Some(h) ==> h.as_bytes() == bytes@.take(HEADER_SIZE as int)
            && T::size_spec() <= bytes@.len(),
    ensures
        r matches Ok(rec) ==> {
            &&& handle matches Some(h) && h.rtype == T::type_id_spec()
            &&& rec.as_bytes() == bytes@.take(T::size_spec() as int)
            &&& record_wf(rec)
        },
        r is Ok <==> (handle matches Some(h) && h.rtype == T::type_id_spec()),
        r matches Err(e) ==> (e is NullPointer <==> handle is None),
        handle matches Some(h) && h.rtype != T::type_id_spec() ==> (r matches Err(e)
            && e matches Error::TypeConversion(msg) && msg@ == T::type_label_spec()),
{
    match handle {
        Option::None => Err(Error::NullPointer),
        Option::Some(h) => {
            if h.rtype == T::type_id() {
                proof {
                    T::lemma_size_bounds();
                }
                let rec = T::from_bytes(bytes);
                proof {
                    h.lemma_fields();
                    assert(bytes@[1] == bytes@.take(HEADER_SIZE as int)[1]);
                }
                Ok(rec)
            } else {
                Err(Error::TypeConversion(T::type_label()))
            }
        },
    }
}

} // verus!
