//! Market-data record types: order-level ticks, trades, book-level updates,
//! and aggregated bars.

use crate::codec::{
    get_i32_le, get_i64_le, get_u32_le, get_u64_le, get_u8, put_i32_le, put_i64_le, put_u32_le,
    put_u64_le, put_u8, lemma_auto_spec_i32_to_from_le_bytes,
    lemma_auto_spec_i64_to_from_le_bytes, spec_i32_to_le_bytes, spec_i64_to_le_bytes,
};
use crate::record::{BidAskPair, ConstTypeId, RecordHeader, OHLCV_TYPE_ID, TICK_MSG_TYPE_ID};
use vstd::bytes::*;
use vstd::prelude::*;

verus! {

broadcast use vstd::array::group_array_axioms;

/// Market-by-order (MBO) tick message, tag [`TICK_MSG_TYPE_ID`].
#[derive(Clone, Copy, Debug, PartialEq, Eq, Structural)]
pub struct MboMsg {
    /// The common header.
    pub hd: RecordHeader,
    /// The order ID assigned at the venue.
    pub order_id: u64,
    /// The order price as a signed fixed-point integer, 1 unit = 1e-9.
    pub price: i64,
    /// The order quantity.
    pub size: u32,
    /// A combination of packet end with matching engine status.
    pub flags: u8,
    /// A channel ID within the venue.
    pub channel_id: u8,
    /// The character code of the event action: modify, trade, cancel, add,
    /// status, or update.
    pub action: u8,
    /// The character code of the order side: ask, bid, or none.
    pub side: u8,
    /// The capture-server received timestamp in nanoseconds since the UNIX
    /// epoch.
    pub ts_recv: u64,
    /// The delta of `ts_recv` against the exchange send time, at most 2
    /// seconds.
    pub ts_in_delta: i32,
    /// The message sequence number assigned at the venue.
    pub sequence: u32,
}

impl ConstTypeId for MboMsg {
    open spec fn type_id_spec() -> u8 {
        TICK_MSG_TYPE_ID
    }

    open spec fn size_spec() -> nat {
        56
    }

    open spec fn as_bytes(self) -> Seq<u8> {
        self.hd.as_bytes() + spec_u64_to_le_bytes(self.order_id)
            + spec_i64_to_le_bytes(self.price) + spec_u32_to_le_bytes(self.size)
            + seq![self.flags, self.channel_id, self.action, self.side]
            + spec_u64_to_le_bytes(self.ts_recv) + spec_i32_to_le_bytes(self.ts_in_delta)
            + spec_u32_to_le_bytes(self.sequence)
    }

    open spec fn header_spec(self) -> RecordHeader {
        self.hd
    }

    open spec fn type_label_spec() -> Seq<char> {
        "MboMsg"@
    }

    fn type_id() -> u8 {
        TICK_MSG_TYPE_ID
    }

    fn size_of_record() -> usize {
        56
    }

    fn type_label() -> &'static str {
        "MboMsg"
    }

    fn header(&self) -> &RecordHeader {
        &self.hd
    }

    fn to_bytes(&self) -> (r: Vec<u8>) {
        let mut out = self.hd.to_bytes();
        put_u64_le(&mut out, self.order_id);
        put_i64_le(&mut out, self.price);
        put_u32_le(&mut out, self.size);
        put_u8(&mut out, self.flags);
        put_u8(&mut out, self.channel_id);
        put_u8(&mut out, self.action);
        put_u8(&mut out, self.side);
        put_u64_le(&mut out, self.ts_recv);
        put_i32_le(&mut out, self.ts_in_delta);
        put_u32_le(&mut out, self.sequence);
        assert(out@ =~= self.as_bytes());
        out
    }

    fn from_bytes(bytes: &[u8]) -> (r: Self) {
        let r = MboMsg {
            hd: RecordHeader::from_bytes(bytes),
            order_id: get_u64_le(bytes, 16),
            price: get_i64_le(bytes, 24),
            size: get_u32_le(bytes, 32),
            flags: get_u8(bytes, 36),
            channel_id: get_u8(bytes, 37),
            action: get_u8(bytes, 38),
            side: get_u8(bytes, 39),
            ts_recv: get_u64_le(bytes, 40),
            ts_in_delta: get_i32_le(bytes, 48),
            sequence: get_u32_le(bytes, 52),
        };
        proof {
            lemma_auto_spec_i64_to_from_le_bytes();
            lemma_auto_spec_i32_to_from_le_bytes();
            lemma_auto_spec_u64_to_from_le_bytes();
            lemma_auto_spec_u32_to_from_le_bytes();
            assert(r.as_bytes() =~= bytes@.take(56));
        }
        r
    }

    proof fn lemma_size_bounds() {
    }

    proof fn lemma_size(self) {
        self.hd.lemma_len();
        lemma_auto_spec_i64_to_from_le_bytes();
        lemma_auto_spec_i32_to_from_le_bytes();
        lemma_auto_spec_u64_to_from_le_bytes();
        lemma_auto_spec_u32_to_from_le_bytes();
    }

    proof fn lemma_header_prefix(self) {
        self.lemma_size();
        self.hd.lemma_fields();
        assert(self.as_bytes().take(16) =~= self.hd.as_bytes());
    }

    proof fn lemma_injective(self, other: Self) {
        lemma_auto_spec_i64_to_from_le_bytes();
        lemma_auto_spec_i32_to_from_le_bytes();
        lemma_auto_spec_u64_to_from_le_bytes();
        lemma_auto_spec_u32_to_from_le_bytes();
        self.lemma_header_prefix();
        other.lemma_header_prefix();
        self.hd.lemma_injective(other.hd);
        assert(self.as_bytes().subrange(16, 24) =~= spec_u64_to_le_bytes(self.order_id));
        assert(other.as_bytes().subrange(16, 24) =~= spec_u64_to_le_bytes(other.order_id));
        assert(self.as_bytes().subrange(24, 32) =~= spec_i64_to_le_bytes(self.price));
        assert(other.as_bytes().subrange(24, 32) =~= spec_i64_to_le_bytes(other.price));
        assert(self.as_bytes().subrange(32, 36) =~= spec_u32_to_le_bytes(self.size));
        assert(other.as_bytes().subrange(32, 36) =~= spec_u32_to_le_bytes(other.size));
        assert(self.as_bytes()[36] == self.flags && other.as_bytes()[36] == other.flags);
        assert(self.as_bytes()[37] == self.channel_id && other.as_bytes()[37] == other.channel_id);
        assert(self.as_bytes()[38] == self.action && other.as_bytes()[38] == other.action);
        assert(self.as_bytes()[39] == self.side && other.as_bytes()[39] == other.side);
        assert(self.as_bytes().subrange(40, 48) =~= spec_u64_to_le_bytes(self.ts_recv));
        assert(other.as_bytes().subrange(40, 48) =~= spec_u64_to_le_bytes(other.ts_recv));
        assert(self.as_bytes().subrange(48, 52) =~= spec_i32_to_le_bytes(self.ts_in_delta));
        assert(other.as_bytes().subrange(48, 52) =~= spec_i32_to_le_bytes(other.ts_in_delta));
        assert(self.as_bytes().subrange(52, 56) =~= spec_u32_to_le_bytes(self.sequence));
        assert(other.as_bytes().subrange(52, 56) =~= spec_u32_to_le_bytes(other.sequence));
    }
}

/// Open, high, low, close, and volume over an aggregation period.
#[derive(Clone, Copy, Debug, PartialEq, Eq, Structural)]
pub struct OhlcvMsg {
    /// The common header.
    pub hd: RecordHeader,
    /// The open price for the bar, signed fixed-point, 1 unit = 1e-9.
    pub open: i64,
    /// The high price for the bar, signed fixed-point, 1 unit = 1e-9.
    pub high: i64,
    /// The low price for the bar, signed fixed-point, 1 unit = 1e-9.
    pub low: i64,
    /// The close price for the bar, signed fixed-point, 1 unit = 1e-9.
    pub close: i64,
    /// The total volume traded during the aggregation period.
    pub volume: u64,
}

impl ConstTypeId for OhlcvMsg {
    open spec fn type_id_spec() -> u8 {
        OHLCV_TYPE_ID
    }

    open spec fn size_spec() -> nat {
        56
    }

    open spec fn as_bytes(self) -> Seq<u8> {
        self.hd.as_bytes() + spec_i64_to_le_bytes(self.open) + spec_i64_to_le_bytes(self.high)
            + spec_i64_to_le_bytes(self.low) + spec_i64_to_le_bytes(self.close)
            + spec_u64_to_le_bytes(self.volume)
    }

    open spec fn header_spec(self) -> RecordHeader {
        self.hd
    }

    open spec fn type_label_spec() -> Seq<char> {
        "OhlcvMsg"@
    }

    fn type_id() -> u8 {
        OHLCV_TYPE_ID
    }

    fn size_of_record() -> usize {
        56
    }

    fn type_label() -> &'static str {
        "OhlcvMsg"
    }

    fn header(&self) -> &RecordHeader {
        &self.hd
    }

    fn to_bytes(&self) -> (r: Vec<u8>) {
        let mut out = self.hd.to_bytes();
        put_i64_le(&mut out, self.open);
        put_i64_le(&mut out, self.high);
        put_i64_le(&mut out, self.low);
        put_i64_le(&mut out, self.close);
        put_u64_le(&mut out, self.volume);
        assert(out@ =~= self.as_bytes());
        out
    }

    fn from_bytes(bytes: &[u8]) -> (r: Self) {
        let r = OhlcvMsg {
            hd: RecordHeader::from_bytes(bytes),
            open: get_i64_le(bytes, 16),
            high: get_i64_le(bytes, 24),
            low: get_i64_le(bytes, 32),
            close: get_i64_le(bytes, 40),
            volume: get_u64_le(bytes, 48),
        };
        proof {
            lemma_auto_spec_i64_to_from_le_bytes();
            lemma_auto_spec_u64_to_from_le_bytes();
            assert(r.as_bytes() =~= bytes@.take(56));
        }
        r
    }

    proof fn lemma_size_bounds() {
    }

    proof fn lemma_size(self) {
        self.hd.lemma_len();
        lemma_auto_spec_i64_to_from_le_bytes();
        lemma_auto_spec_u64_to_from_le_bytes();
    }

    proof fn lemma_header_prefix(self) {
        self.lemma_size();
        self.hd.lemma_fields();
        assert(self.as_bytes().take(16) =~= self.hd.as_bytes());
    }

    proof fn lemma_injective(self, other: Self) {
        lemma_auto_spec_i64_to_from_le_bytes();
        lemma_auto_spec_u64_to_from_le_bytes();
        self.lemma_header_prefix();
        other.lemma_header_prefix();
        self.hd.lemma_injective(other.hd);
        assert(self.as_bytes().subrange(16, 24) =~= spec_i64_to_le_bytes(self.open));
        assert(other.as_bytes().subrange(16, 24) =~= spec_i64_to_le_bytes(other.open));
        assert(self.as_bytes().subrange(24, 32) =~= spec_i64_to_le_bytes(self.high));
        assert(other.as_bytes().subrange(24, 32) =~= spec_i64_to_le_bytes(other.high));
        assert(self.as_bytes().subrange(32, 40) =~= spec_i64_to_le_bytes(self.low));
        assert(other.as_bytes().subrange(32, 40) =~= spec_i64_to_le_bytes(other.low));
        assert(self.as_bytes().subrange(40, 48) =~= spec_i64_to_le_bytes(self.close));
        assert(other.as_bytes().subrange(40, 48) =~= spec_i64_to_le_bytes(other.close));
        assert(self.as_bytes().subrange(48, 56) =~= spec_u64_to_le_bytes(self.volume));
        assert(other.as_bytes().subrange(48, 56) =~= spec_u64_to_le_bytes(other.volume));
    }
}

/// A trade event: a market-by-price record with a book depth of 0; its
/// tag is its book depth.
#[derive(Clone, Copy, Debug, PartialEq, Eq)]
pub struct TradeMsg {
    /// The common header.
    pub hd: RecordHeader,
    /// The order price as a signed fixed-point integer, 1 unit = 1e-9.
    pub price: i64,
    /// The order quantity.
    pub size: u32,
    /// The character code of the event action: modify, trade, cancel, add,
    /// status, or update.
    pub action: u8,
    /// The character code of the order side: ask, bid, or none.
    pub side: u8,
    /// A combination of packet end with matching engine status.
    pub flags: u8,
    /// The depth of the actual book change.
    pub depth: u8,
    /// The capture-server received timestamp in nanoseconds since the UNIX
    /// epoch.
    pub ts_recv: u64,
    /// The delta of `ts_recv` against the exchange send time, at most 2
    /// seconds.
    pub ts_in_delta: i32,
    /// The message sequence number assigned at the venue.
    pub sequence: u32,
    /// The booked levels; the length of this array is this record type's
    /// book depth and doubles as its tag.
    pub booklevel: [BidAskPair; 0],
}

impl ConstTypeId for TradeMsg {
    open spec fn type_id_spec() -> u8 {
        0
    }

    open spec fn size_spec() -> nat {
        48
    }

    open spec fn as_bytes(self) -> Seq<u8> {
        self.hd.as_bytes() + spec_i64_to_le_bytes(self.price) + spec_u32_to_le_bytes(self.size)
            + seq![self.action, self.side, self.flags, self.depth]
            + spec_u64_to_le_bytes(self.ts_recv) + spec_i32_to_le_bytes(self.ts_in_delta)
            + spec_u32_to_le_bytes(self.sequence)
    }

    open spec fn header_spec(self) -> RecordHeader {
        self.hd
    }

    open spec fn type_label_spec() -> Seq<char> {
        "TradeMsg"@
    }

    fn type_id() -> u8 {
        0
    }

    fn size_of_record() -> usize {
        48
    }

    fn type_label() -> &'static str {
        "TradeMsg"
    }

    fn header(&self) -> &RecordHeader {
        &self.hd
    }

    fn to_bytes(&self) -> (r: Vec<u8>) {
        let mut out = self.hd.to_bytes();
        put_i64_le(&mut out, self.price);
        put_u32_le(&mut out, self.size);
        put_u8(&mut out, self.action);
        put_u8(&mut out, self.side);
        put_u8(&mut out, self.flags);
        put_u8(&mut out, self.depth);
        put_u64_le(&mut out, self.ts_recv);
        put_i32_le(&mut out, self.ts_in_delta);
        put_u32_le(&mut out, self.sequence);
        assert(out@ =~= self.as_bytes());
        out
    }

    fn from_bytes(bytes: &[u8]) -> (r: Self) {
        let r = TradeMsg {
            hd: RecordHeader::from_bytes(bytes),
            price: get_i64_le(bytes, 16),
            size: get_u32_le(bytes, 24),
            action: get_u8(bytes, 28),
            side: get_u8(bytes, 29),
            flags: get_u8(bytes, 30),
            depth: get_u8(bytes, 31),
            ts_recv: get_u64_le(bytes, 32),
            ts_in_delta: get_i32_le(bytes, 40),
            sequence: get_u32_le(bytes, 44),
            booklevel: [],
        };
        proof {
            lemma_auto_spec_i64_to_from_le_bytes();
            lemma_auto_spec_i32_to_from_le_bytes();
            lemma_auto_spec_u64_to_from_le_bytes();
            lemma_auto_spec_u32_to_from_le_bytes();
            assert(r.as_bytes() =~= bytes@.take(48));
        }
        r
    }

    proof fn lemma_size_bounds() {
    }

    proof fn lemma_size(self) {
        self.hd.lemma_len();
        lemma_auto_spec_i64_to_from_le_bytes();
        lemma_auto_spec_i32_to_from_le_bytes();
        lemma_auto_spec_u64_to_from_le_bytes();
        lemma_auto_spec_u32_to_from_le_bytes();
    }

    proof fn lemma_header_prefix(self) {
        self.lemma_size();
        self.hd.lemma_fields();
        assert(self.as_bytes().take(16) =~= self.hd.as_bytes());
    }

    proof fn lemma_injective(self, other: Self) {
        lemma_auto_spec_i64_to_from_le_bytes();
        lemma_auto_spec_i32_to_from_le_bytes();
        lemma_auto_spec_u64_to_from_le_bytes();
        lemma_auto_spec_u32_to_from_le_bytes();
        self.lemma_header_prefix();
        other.lemma_header_prefix();
        self.hd.lemma_injective(other.hd);
        assert(self.as_bytes().subrange(16, 24) =~= spec_i64_to_le_bytes(self.price));
        assert(other.as_bytes().subrange(16, 24) =~= spec_i64_to_le_bytes(other.price));
        assert(self.as_bytes().subrange(24, 28) =~= spec_u32_to_le_bytes(self.size));
        assert(other.as_bytes().subrange(24, 28) =~= spec_u32_to_le_bytes(other.size));
        assert(self.as_bytes()[28] == self.action && other.as_bytes()[28] == other.action);
        assert(self.as_bytes()[29] == self.side && other.as_bytes()[29] == other.side);
        assert(self.as_bytes()[30] == self.flags && other.as_bytes()[30] == other.flags);
        assert(self.as_bytes()[31] == self.depth && other.as_bytes()[31] == other.depth);
        assert(self.as_bytes().subrange(32, 40) =~= spec_u64_to_le_bytes(self.ts_recv));
        assert(other.as_bytes().subrange(32, 40) =~= spec_u64_to_le_bytes(other.ts_recv));
        assert(self.as_bytes().subrange(40, 44) =~= spec_i32_to_le_bytes(self.ts_in_delta));
        assert(other.as_bytes().subrange(40, 44) =~= spec_i32_to_le_bytes(other.ts_in_delta));
        assert(self.as_bytes().subrange(44, 48) =~= spec_u32_to_le_bytes(self.sequence));
        assert(other.as_bytes().subrange(44, 48) =~= spec_u32_to_le_bytes(other.sequence));
        assert(self.booklevel =~= other.booklevel);
    }
}

/// A market-by-price record with a known book depth of 1; its tag is its
/// book depth.
#[derive(Clone, Copy, Debug, PartialEq, Eq)]
pub struct Mbp1Msg {
    /// The common header.
    pub hd: RecordHeader,
    /// The order price as a signed fixed-point integer, 1 unit = 1e-9.
    pub price: i64,
    /// The order quantity.
    pub size: u32,
    /// The character code of the event action: modify, trade, cancel, add,
    /// status, or update.
    pub action: u8,
    /// The character code of the order side: ask, bid, or none.
    pub side: u8,
    /// A combination of packet end with matching engine status.
    pub flags: u8,
    /// The depth of the actual book change.
    pub depth: u8,
    /// The capture-server received timestamp in nanoseconds since the UNIX
    /// epoch.
    pub ts_recv: u64,
    /// The delta of `ts_recv` against the exchange send time, at most 2
    /// seconds.
    pub ts_in_delta: i32,
    /// The message sequence number assigned at the venue.
    pub sequence: u32,
    /// The booked levels; the length of this array is this record type's
    /// book depth and doubles as its tag.
    pub booklevel: [BidAskPair; 1],
}

impl ConstTypeId for Mbp1Msg {
    open spec fn type_id_spec() -> u8 {
        1
    }

    open spec fn size_spec() -> nat {
        80
    }

    open spec fn as_bytes(self) -> Seq<u8> {
        self.hd.as_bytes() + spec_i64_to_le_bytes(self.price) + spec_u32_to_le_bytes(self.size)
            + seq![self.action, self.side, self.flags, self.depth]
            + spec_u64_to_le_bytes(self.ts_recv) + spec_i32_to_le_bytes(self.ts_in_delta)
            + spec_u32_to_le_bytes(self.sequence)
            + self.booklevel[0].as_bytes()
    }

    open spec fn header_spec(self) -> RecordHeader {
        self.hd
    }

    open spec fn type_label_spec() -> Seq<char> {
        "Mbp1Msg"@
    }

    fn type_id() -> u8 {
        1
    }

    fn size_of_record() -> usize {
        80
    }

    fn type_label() -> &'static str {
        "Mbp1Msg"
    }

    fn header(&self) -> &RecordHeader {
        &self.hd
    }

    fn to_bytes(&self) -> (r: Vec<u8>) {
        let mut out = self.hd.to_bytes();
        put_i64_le(&mut out, self.price);
        put_u32_le(&mut out, self.size);
        put_u8(&mut out, self.action);
        put_u8(&mut out, self.side);
        put_u8(&mut out, self.flags);
        put_u8(&mut out, self.depth);
        put_u64_le(&mut out, self.ts_recv);
        put_i32_le(&mut out, self.ts_in_delta);
        put_u32_le(&mut out, self.sequence);
        self.booklevel[0].write_bytes(&mut out);
        assert(out@ =~= self.as_bytes());
        out
    }

    fn from_bytes(bytes: &[u8]) -> (r: Self) {
        let r = Mbp1Msg {
            hd: RecordHeader::from_bytes(bytes),
            price: get_i64_le(bytes, 16),
            size: get_u32_le(bytes, 24),
            action: get_u8(bytes, 28),
            side: get_u8(bytes, 29),
            flags: get_u8(bytes, 30),
            depth: get_u8(bytes, 31),
            ts_recv: get_u64_le(bytes, 32),
            ts_in_delta: get_i32_le(bytes, 40),
            sequence: get_u32_le(bytes, 44),
            booklevel: [
                BidAskPair::from_bytes(bytes, 48),
            ],
        };
        proof {
            lemma_auto_spec_i64_to_from_le_bytes();
            lemma_auto_spec_i32_to_from_le_bytes();
            lemma_auto_spec_u64_to_from_le_bytes();
            lemma_auto_spec_u32_to_from_le_bytes();
            assert(r.as_bytes() =~= bytes@.take(80));
        }
        r
    }

    proof fn lemma_size_bounds() {
    }

    proof fn lemma_size(self) {
        self.hd.lemma_len();
        lemma_auto_spec_i64_to_from_le_bytes();
        lemma_auto_spec_i32_to_from_le_bytes();
        lemma_auto_spec_u64_to_from_le_bytes();
        lemma_auto_spec_u32_to_from_le_bytes();
        self.booklevel[0].lemma_len();
    }

    proof fn lemma_header_prefix(self) {
        self.lemma_size();
        self.hd.lemma_fields();
        assert(self.as_bytes().take(16) =~= self.hd.as_bytes());
    }

    proof fn lemma_injective(self, other: Self) {
        lemma_auto_spec_i64_to_from_le_bytes();
        lemma_auto_spec_i32_to_from_le_bytes();
        lemma_auto_spec_u64_to_from_le_bytes();
        lemma_auto_spec_u32_to_from_le_bytes();
        self.lemma_header_prefix();
        other.lemma_header_prefix();
        self.hd.lemma_injective(other.hd);
        assert(self.as_bytes().subrange(16, 24) =~= spec_i64_to_le_bytes(self.price));
        assert(other.as_bytes().subrange(16, 24) =~= spec_i64_to_le_bytes(other.price));
        assert(self.as_bytes().subrange(24, 28) =~= spec_u32_to_le_bytes(self.size));
        assert(other.as_bytes().subrange(24, 28) =~= spec_u32_to_le_bytes(other.size));
        assert(self.as_bytes()[28] == self.action && other.as_bytes()[28] == other.action);
        assert(self.as_bytes()[29] == self.side && other.as_bytes()[29] == other.side);
        assert(self.as_bytes()[30] == self.flags && other.as_bytes()[30] == other.flags);
        assert(self.as_bytes()[31] == self.depth && other.as_bytes()[31] == other.depth);
        assert(self.as_bytes().subrange(32, 40) =~= spec_u64_to_le_bytes(self.ts_recv));
        assert(other.as_bytes().subrange(32, 40) =~= spec_u64_to_le_bytes(other.ts_recv));
        assert(self.as_bytes().subrange(40, 44) =~= spec_i32_to_le_bytes(self.ts_in_delta));
        assert(other.as_bytes().subrange(40, 44) =~= spec_i32_to_le_bytes(other.ts_in_delta));
        assert(self.as_bytes().subrange(44, 48) =~= spec_u32_to_le_bytes(self.sequence));
        assert(other.as_bytes().subrange(44, 48) =~= spec_u32_to_le_bytes(other.sequence));
        assert(self.as_bytes().subrange(48, 80) =~= self.booklevel[0].as_bytes());
        assert(other.as_bytes().subrange(48, 80) =~= other.booklevel[0].as_bytes());
        self.booklevel[0].lemma_injective(other.booklevel[0]);
        assert(self.booklevel =~= other.booklevel);
    }
}

/// Trades together with the best bid and offer: representationally
/// identical to the depth-1 book record, whose tag it shares.
pub type TbboMsg = Mbp1Msg;

/// A market-by-price record with a known book depth of 10; its tag is its
/// book depth.
#[derive(Clone, Copy, Debug, PartialEq, Eq)]
pub struct Mbp10Msg {
    /// The common header.
    pub hd: RecordHeader,
    /// The order price as a signed fixed-point integer, 1 unit = 1e-9.
    pub price: i64,
    /// The order quantity.
    pub size: u32,
    /// The character code of the event action: modify, trade, cancel, add,
    /// status, or update.
    pub action: u8,
    /// The character code of the order side: ask, bid, or none.
    pub side: u8,
    /// A combination of packet end with matching engine status.
    pub flags: u8,
    /// The depth of the actual book change.
    pub depth: u8,
    /// The capture-server received timestamp in nanoseconds since the UNIX
    /// epoch.
    pub ts_recv: u64,
    /// The delta of `ts_recv` against the exchange send time, at most 2
    /// seconds.
    pub ts_in_delta: i32,
    /// The message sequence number assigned at the venue.
    pub sequence: u32,
    /// The booked levels; the length of this array is this record type's
    /// book depth and doubles as its tag.
    pub booklevel: [BidAskPair; 10],
}

impl ConstTypeId for Mbp10Msg {
    open spec fn type_id_spec() -> u8 {
        10
    }

    open spec fn size_spec() -> nat {
        368
    }

    open spec fn as_bytes(self) -> Seq<u8> {
        self.hd.as_bytes() + spec_i64_to_le_bytes(self.price) + spec_u32_to_le_bytes(self.size)
            + seq![self.action, self.side, self.flags, self.depth]
            + spec_u64_to_le_bytes(self.ts_recv) + spec_i32_to_le_bytes(self.ts_in_delta)
            + spec_u32_to_le_bytes(self.sequence)
            + self.booklevel[0].as_bytes()
            + self.booklevel[1].as_bytes()
            + self.booklevel[2].as_bytes()
            + self.booklevel[3].as_bytes()
            + self.booklevel[4].as_bytes()
            + self.booklevel[5].as_bytes()
            + self.booklevel[6].as_bytes()
            + self.booklevel[7].as_bytes()
            + self.booklevel[8].as_bytes()
            + self.booklevel[9].as_bytes()
    }

    open spec fn header_spec(self) -> RecordHeader {
        self.hd
    }

    open spec fn type_label_spec() -> Seq<char> {
        "Mbp10Msg"@
    }

    fn type_id() -> u8 {
        10
    }

    fn size_of_record() -> usize {
        368
    }

    fn type_label() -> &'static str {
        "Mbp10Msg"
    }

    fn header(&self) -> &RecordHeader {
        &self.hd
    }

    fn to_bytes(&self) -> (r: Vec<u8>) {
        let mut out = self.hd.to_bytes();
        put_i64_le(&mut out, self.price);
        put_u32_le(&mut out, self.size);
        put_u8(&mut out, self.action);
        put_u8(&mut out, self.side);
        put_u8(&mut out, self.flags);
        put_u8(&mut out, self.depth);
        put_u64_le(&mut out, self.ts_recv);
        put_i32_le(&mut out, self.ts_in_delta);
        put_u32_le(&mut out, self.sequence);
        self.booklevel[0].write_bytes(&mut out);
        self.booklevel[1].write_bytes(&mut out);
        self.booklevel[2].write_bytes(&mut out);
        self.booklevel[3].write_bytes(&mut out);
        self.booklevel[4].write_bytes(&mut out);
        self.booklevel[5].write_bytes(&mut out);
        self.booklevel[6].write_bytes(&mut out);
        self.booklevel[7].write_bytes(&mut out);
        self.booklevel[8].write_bytes(&mut out);
        self.booklevel[9].write_bytes(&mut out);
        assert(out@ =~= self.as_bytes());
        out
    }

    fn from_bytes(bytes: &[u8]) -> (r: Self) {
        let r = Mbp10Msg {
            hd: RecordHeader::from_bytes(bytes),
            price: get_i64_le(bytes, 16),
            size: get_u32_le(bytes, 24),
            action: get_u8(bytes, 28),
            side: get_u8(bytes, 29),
            flags: get_u8(bytes, 30),
            depth: get_u8(bytes, 31),
            ts_recv: get_u64_le(bytes, 32),
            ts_in_delta: get_i32_le(bytes, 40),
            sequence: get_u32_le(bytes, 44),
            booklevel: [
                BidAskPair::from_bytes(bytes, 48),
                BidAskPair::from_bytes(bytes, 80),
                BidAskPair::from_bytes(bytes, 112),
                BidAskPair::from_bytes(bytes, 144),
                BidAskPair::from_bytes(bytes, 176),
                BidAskPair::from_bytes(bytes, 208),
                BidAskPair::from_bytes(bytes, 240),
                BidAskPair::from_bytes(bytes, 272),
                BidAskPair::from_bytes(bytes, 304),
                BidAskPair::from_bytes(bytes, 336),
            ],
        };
        proof {
            lemma_auto_spec_i64_to_from_le_bytes();
            lemma_auto_spec_i32_to_from_le_bytes();
            lemma_auto_spec_u64_to_from_le_bytes();
            lemma_auto_spec_u32_to_from_le_bytes();
            assert(r.as_bytes() =~= bytes@.take(368));
        }
        r
    }

    proof fn lemma_size_bounds() {
    }

    proof fn lemma_size(self) {
        self.hd.lemma_len();
        lemma_auto_spec_i64_to_from_le_bytes();
        lemma_auto_spec_i32_to_from_le_bytes();
        lemma_auto_spec_u64_to_from_le_bytes();
        lemma_auto_spec_u32_to_from_le_bytes();
        self.booklevel[0].lemma_len();
        self.booklevel[1].lemma_len();
        self.booklevel[2].lemma_len();
        self.booklevel[3].lemma_len();
        self.booklevel[4].lemma_len();
        self.booklevel[5].lemma_len();
        self.booklevel[6].lemma_len();
        self.booklevel[7].lemma_len();
        self.booklevel[8].lemma_len();
        self.booklevel[9].lemma_len();
    }

    proof fn lemma_header_prefix(self) {
        self.lemma_size();
        self.hd.lemma_fields();
        assert(self.as_bytes().take(16) =~= self.hd.as_bytes());
    }

    proof fn lemma_injective(self, other: Self) {
        lemma_auto_spec_i64_to_from_le_bytes();
        lemma_auto_spec_i32_to_from_le_bytes();
        lemma_auto_spec_u64_to_from_le_bytes();
        lemma_auto_spec_u32_to_from_le_bytes();
        self.lemma_header_prefix();
        other.lemma_header_prefix();
        self.hd.lemma_injective(other.hd);
        assert(self.as_bytes().subrange(16, 24) =~= spec_i64_to_le_bytes(self.price));
        assert(other.as_bytes().subrange(16, 24) =~= spec_i64_to_le_bytes(other.price));
        assert(self.as_bytes().subrange(24, 28) =~= spec_u32_to_le_bytes(self.size));
        assert(other.as_bytes().subrange(24, 28) =~= spec_u32_to_le_bytes(other.size));
        assert(self.as_bytes()[28] == self.action && other.as_bytes()[28] == other.action);
        assert(self.as_bytes()[29] == self.side && other.as_bytes()[29] == other.side);
        assert(self.as_bytes()[30] == self.flags && other.as_bytes()[30] == other.flags);
        assert(self.as_bytes()[31] == self.depth && other.as_bytes()[31] == other.depth);
        assert(self.as_bytes().subrange(32, 40) =~= spec_u64_to_le_bytes(self.ts_recv));
        assert(other.as_bytes().subrange(32, 40) =~= spec_u64_to_le_bytes(other.ts_recv));
        assert(self.as_bytes().subrange(40, 44) =~= spec_i32_to_le_bytes(self.ts_in_delta));
        assert(other.as_bytes().subrange(40, 44) =~= spec_i32_to_le_bytes(other.ts_in_delta));
        assert(self.as_bytes().subrange(44, 48) =~= spec_u32_to_le_bytes(self.sequence));
        assert(other.as_bytes().subrange(44, 48) =~= spec_u32_to_le_bytes(other.sequence));
        assert(self.as_bytes().subrange(48, 80) =~= self.booklevel[0].as_bytes());
        assert(other.as_bytes().subrange(48, 80) =~= other.booklevel[0].as_bytes());
        self.booklevel[0].lemma_injective(other.booklevel[0]);
        assert(self.as_bytes().subrange(80, 112) =~= self.booklevel[1].as_bytes());
        assert(other.as_bytes().subrange(80, 112) =~= other.booklevel[1].as_bytes());
        self.booklevel[1].lemma_injective(other.booklevel[1]);
        assert(self.as_bytes().subrange(112, 144) =~= self.booklevel[2].as_bytes());
        assert(other.as_bytes().subrange(112, 144) =~= other.booklevel[2].as_bytes());
        self.booklevel[2].lemma_injective(other.booklevel[2]);
        assert(self.as_bytes().subrange(144, 176) =~= self.booklevel[3].as_bytes());
        assert(other.as_bytes().subrange(144, 176) =~= other.booklevel[3].as_bytes());
        self.booklevel[3].lemma_injective(other.booklevel[3]);
        assert(self.as_bytes().subrange(176, 208) =~= self.booklevel[4].as_bytes());
        assert(other.as_bytes().subrange(176, 208) =~= other.booklevel[4].as_bytes());
        self.booklevel[4].lemma_injective(other.booklevel[4]);
        assert(self.as_bytes().subrange(208, 240) =~= self.booklevel[5].as_bytes());
        assert(other.as_bytes().subrange(208, 240) =~= other.booklevel[5].as_bytes());
        self.booklevel[5].lemma_injective(other.booklevel[5]);
        assert(self.as_bytes().subrange(240, 272) =~= self.booklevel[6].as_bytes());
        assert(other.as_bytes().subrange(240, 272) =~= other.booklevel[6].as_bytes());
        self.booklevel[6].lemma_injective(other.booklevel[6]);
        assert(self.as_bytes().subrange(272, 304) =~= self.booklevel[7].as_bytes());
        assert(other.as_bytes().subrange(272, 304) =~= other.booklevel[7].as_bytes());
        self.booklevel[7].lemma_injective(other.booklevel[7]);
        assert(self.as_bytes().subrange(304, 336) =~= self.booklevel[8].as_bytes());
        assert(other.as_bytes().subrange(304, 336) =~= other.booklevel[8].as_bytes());
        self.booklevel[8].lemma_injective(other.booklevel[8]);
        assert(self.as_bytes().subrange(336, 368) =~= self.booklevel[9].as_bytes());
        assert(other.as_bytes().subrange(336, 368) =~= other.booklevel[9].as_bytes());
        self.booklevel[9].lemma_injective(other.booklevel[9]);
        assert(self.booklevel =~= other.booklevel);
    }
}

} // verus!
