//! Session and reference records: trading status, gateway errors, and
//! symbol mappings, each carrying fixed-width NUL-terminated character
//! fields.

use crate::codec::{
    c_str_bytes, get_array, get_u64_le, get_u8, nul_prefix_len, put_array, put_u64_le, put_u8,
};
use crate::record::{
    ConstTypeId, RecordHeader, GATEWAY_ERROR_MSG_TYPE_ID, STATUS_MSG_TYPE_ID,
    SYMBOL_MAPPING_MSG_TYPE_ID,
};
use vstd::bytes::{lemma_auto_spec_u64_to_from_le_bytes, spec_u64_to_le_bytes};
use vstd::prelude::*;

verus! {

broadcast use vstd::array::group_array_axioms;

/// A trading status update, tag [`STATUS_MSG_TYPE_ID`].
#[derive(Clone, Copy, Debug, PartialEq, Eq)]
pub struct StatusMsg {
    /// The common header.
    pub hd: RecordHeader,
    /// The capture-server received timestamp in nanoseconds since the UNIX
    /// epoch.
    pub ts_recv: u64,
    /// The security group, as NUL-terminated text in a fixed-width field.
    pub group: [u8; 21],
    /// The numeric code of the trading status.
    pub trading_status: u8,
    /// The numeric code of the halt reason.
    pub halt_reason: u8,
    /// The numeric code of the trading event.
    pub trading_event: u8,
}

impl ConstTypeId for StatusMsg {
    open spec fn type_id_spec() -> u8 {
        STATUS_MSG_TYPE_ID
    }

    open spec fn size_spec() -> nat {
        48
    }

    open spec fn as_bytes(self) -> Seq<u8> {
        self.hd.as_bytes() + spec_u64_to_le_bytes(self.ts_recv) + self.group@
            + seq![self.trading_status, self.halt_reason, self.trading_event]
    }

    open spec fn header_spec(self) -> RecordHeader {
        self.hd
    }

    open spec fn type_label_spec() -> Seq<char> {
        "StatusMsg"@
    }

    fn type_id() -> u8 {
        STATUS_MSG_TYPE_ID
    }

    fn size_of_record() -> usize {
        48
    }

    fn type_label() -> &'static str {
        "StatusMsg"
    }

    fn header(&self) -> &RecordHeader {
        &self.hd
    }

    fn to_bytes(&self) -> (r: Vec<u8>) {
        let mut out = self.hd.to_bytes();
        put_u64_le(&mut out, self.ts_recv);
        put_array(&mut out, &self.group);
        put_u8(&mut out, self.trading_status);
        put_u8(&mut out, self.halt_reason);
        put_u8(&mut out, self.trading_event);
        assert(out@ =~= self.as_bytes());
        out
    }

    fn from_bytes(bytes: &[u8]) -> (r: Self) {
        let r = StatusMsg {
            hd: RecordHeader::from_bytes(bytes),
            ts_recv: get_u64_le(bytes, 16),
            group: get_array(bytes, 24),
            trading_status: get_u8(bytes, 45),
            halt_reason: get_u8(bytes, 46),
            trading_event: get_u8(bytes, 47),
        };
        proof {
            lemma_auto_spec_u64_to_from_le_bytes();
            assert(r.as_bytes() =~= bytes@.take(48));
        }
        r
    }

    proof fn lemma_size_bounds() {
    }

    proof fn lemma_size(self) {
        self.hd.lemma_len();
        lemma_auto_spec_u64_to_from_le_bytes();
    }

    proof fn lemma_header_prefix(self) {
        self.lemma_size();
        self.hd.lemma_fields();
        assert(self.as_bytes().take(16) =~= self.hd.as_bytes());
    }

    proof fn lemma_injective(self, other: Self) {
        lemma_auto_spec_u64_to_from_le_bytes();
        self.lemma_header_prefix();
        other.lemma_header_prefix();
        self.hd.lemma_injective(other.hd);
        assert(self.as_bytes().subrange(16, 24) =~= spec_u64_to_le_bytes(self.ts_recv));
        assert(other.as_bytes().subrange(16, 24) =~= spec_u64_to_le_bytes(other.ts_recv));
        assert(self.as_bytes().subrange(24, 45) =~= self.group@);
        assert(other.as_bytes().subrange(24, 45) =~= other.group@);
        assert(self.group =~= other.group);
        assert(self.as_bytes()[45] == self.trading_status
            && other.as_bytes()[45] == other.trading_status);
        assert(self.as_bytes()[46] == self.halt_reason
            && other.as_bytes()[46] == other.halt_reason);
        assert(self.as_bytes()[47] == self.trading_event
            && other.as_bytes()[47] == other.trading_event);
    }
}

impl StatusMsg {

    /// The meaningful text of `group`: the bytes up to, and not
    /// including, the first NUL.
    pub fn group_bytes(&self) -> (r: Vec<u8>)
        ensures
            r@ == self.group@.take(nul_prefix_len(self.group@) as int),
    {
        c_str_bytes(self.group.as_slice())
    }
}

/// A gateway error message, tag [`GATEWAY_ERROR_MSG_TYPE_ID`].
#[derive(Clone, Copy, Debug, PartialEq, Eq)]
pub struct GatewayErrorMsg {
    /// The common header.
    pub hd: RecordHeader,
    /// The error text, NUL-terminated in a fixed-width field.
    pub err: [u8; 64],
}

impl ConstTypeId for GatewayErrorMsg {
    open spec fn type_id_spec() -> u8 {
        GATEWAY_ERROR_MSG_TYPE_ID
    }

    open spec fn size_spec() -> nat {
        80
    }

    open spec fn as_bytes(self) -> Seq<u8> {
        self.hd.as_bytes() + self.err@
    }

    open spec fn header_spec(self) -> RecordHeader {
        self.hd
    }

    open spec fn type_label_spec() -> Seq<char> {
        "GatewayErrorMsg"@
    }

    fn type_id() -> u8 {
        GATEWAY_ERROR_MSG_TYPE_ID
    }

    fn size_of_record() -> usize {
        80
    }

    fn type_label() -> &'static str {
        "GatewayErrorMsg"
    }

    fn header(&self) -> &RecordHeader {
        &self.hd
    }

    fn to_bytes(&self) -> (r: Vec<u8>) {
        let mut out = self.hd.to_bytes();
        put_array(&mut out, &self.err);
        assert(out@ =~= self.as_bytes());
        out
    }

    fn from_bytes(bytes: &[u8]) -> (r: Self) {
        let r = GatewayErrorMsg { hd: RecordHeader::from_bytes(bytes), err: get_array(bytes, 16) };
        proof {
            assert(r.as_bytes() =~= bytes@.take(80));
        }
        r
    }

    proof fn lemma_size_bounds() {
    }

    proof fn lemma_size(self) {
        self.hd.lemma_len();
    }

    proof fn lemma_header_prefix(self) {
        self.lemma_size();
        self.hd.lemma_fields();
        assert(self.as_bytes().take(16) =~= self.hd.as_bytes());
    }

    proof fn lemma_injective(self, other: Self) {
        self.lemma_header_prefix();
        other.lemma_header_prefix();
        self.hd.lemma_injective(other.hd);
        assert(self.as_bytes().subrange(16, 80) =~= self.err@);
        assert(other.as_bytes().subrange(16, 80) =~= other.err@);
        assert(self.err =~= other.err);
    }
}

impl GatewayErrorMsg {

    /// The meaningful text of `err`: the bytes up to, and not
    /// including, the first NUL.
    pub fn err_bytes(&self) -> (r: Vec<u8>)
        ensures
            r@ == self.err@.take(nul_prefix_len(self.err@) as int),
    {
        c_str_bytes(self.err.as_slice())
    }
}

/// A symbol mapping message, tag [`SYMBOL_MAPPING_MSG_TYPE_ID`]: two
/// fixed-width symbol strings and the time range over which the mapping is
/// valid.
#[derive(Clone, Copy, Debug, PartialEq, Eq)]
pub struct SymbolMappingMsg {
    /// The common header.
    pub hd: RecordHeader,
    /// The input symbol, NUL-terminated in a fixed-width field.
    pub stype_in_symbol: [u8; 22],
    /// The output symbol, NUL-terminated in a fixed-width field.
    pub stype_out_symbol: [u8; 22],
    /// Filler for alignment.
    pub _dummy: [u8; 4],
    /// The start of the validity range, nanoseconds since the UNIX epoch.
    pub start_ts: u64,
    /// The end of the validity range, nanoseconds since the UNIX epoch.
    pub end_ts: u64,
}

impl ConstTypeId for SymbolMappingMsg {
    open spec fn type_id_spec() -> u8 {
        SYMBOL_MAPPING_MSG_TYPE_ID
    }

    open spec fn size_spec() -> nat {
        80
    }

    open spec fn as_bytes(self) -> Seq<u8> {
        self.hd.as_bytes() + self.stype_in_symbol@ + self.stype_out_symbol@ + self._dummy@
            + spec_u64_to_le_bytes(self.start_ts) + spec_u64_to_le_bytes(self.end_ts)
    }

    open spec fn header_spec(self) -> RecordHeader {
        self.hd
    }

    open spec fn type_label_spec() -> Seq<char> {
        "SymbolMappingMsg"@
    }

    fn type_id() -> u8 {
        SYMBOL_MAPPING_MSG_TYPE_ID
    }

    fn size_of_record() -> usize {
        80
    }

    fn type_label() -> &'static str {
        "SymbolMappingMsg"
    }

    fn header(&self) -> &RecordHeader {
        &self.hd
    }

    fn to_bytes(&self) -> (r: Vec<u8>) {
        let mut out = self.hd.to_bytes();
        put_array(&mut out, &self.stype_in_symbol);
        put_array(&mut out, &self.stype_out_symbol);
        put_array(&mut out, &self._dummy);
        put_u64_le(&mut out, self.start_ts);
        put_u64_le(&mut out, self.end_ts);
        assert(out@ =~= self.as_bytes());
        out
    }

    fn from_bytes(bytes: &[u8]) -> (r: Self) {
        let r = SymbolMappingMsg {
            hd: RecordHeader::from_bytes(bytes),
            stype_in_symbol: get_array(bytes, 16),
            stype_out_symbol: get_array(bytes, 38),
            _dummy: get_array(bytes, 60),
            start_ts: get_u64_le(bytes, 64),
            end_ts: get_u64_le(bytes, 72),
        };
        proof {
            lemma_auto_spec_u64_to_from_le_bytes();
            assert(r.as_bytes() =~= bytes@.take(80));
        }
        r
    }

    proof fn lemma_size_bounds() {
    }

    proof fn lemma_size(self) {
        self.hd.lemma_len();
        lemma_auto_spec_u64_to_from_le_bytes();
    }

    proof fn lemma_header_prefix(self) {
        self.lemma_size();
        self.hd.lemma_fields();
        assert(self.as_bytes().take(16) =~= self.hd.as_bytes());
    }

    proof fn lemma_injective(self, other: Self) {
        lemma_auto_spec_u64_to_from_le_bytes();
        self.lemma_header_prefix();
        other.lemma_header_prefix();
        self.hd.lemma_injective(other.hd);
        assert(self.as_bytes().subrange(16, 38) =~= self.stype_in_symbol@);
        assert(other.as_bytes().subrange(16, 38) =~= other.stype_in_symbol@);
        assert(self.stype_in_symbol =~= other.stype_in_symbol);
        assert(self.as_bytes().subrange(38, 60) =~= self.stype_out_symbol@);
        assert(other.as_bytes().subrange(38, 60) =~= other.stype_out_symbol@);
        assert(self.stype_out_symbol =~= other.stype_out_symbol);
        assert(self.as_bytes().subrange(60, 64) =~= self._dummy@);
        assert(other.as_bytes().subrange(60, 64) =~= other._dummy@);
        assert(self._dummy =~= other._dummy);
        assert(self.as_bytes().subrange(64, 72) =~= spec_u64_to_le_bytes(self.start_ts));
        assert(other.as_bytes().subrange(64, 72) =~= spec_u64_to_le_bytes(other.start_ts));
        assert(self.as_bytes().subrange(72, 80) =~= spec_u64_to_le_bytes(self.end_ts));
        assert(other.as_bytes().subrange(72, 80) =~= spec_u64_to_le_bytes(other.end_ts));
    }
}

impl SymbolMappingMsg {

    /// The meaningful text of `stype_in_symbol`: the bytes up to, and not
    /// including, the first NUL.
    pub fn stype_in_symbol_bytes(&self) -> (r: Vec<u8>)
        ensures
            r@ == self.stype_in_symbol@.take(nul_prefix_len(self.stype_in_symbol@) as int),
    {
        c_str_bytes(self.stype_in_symbol.as_slice())
    }

    /// The meaningful text of `stype_out_symbol`: the bytes up to, and not
    /// including, the first NUL.
    pub fn stype_out_symbol_bytes(&self) -> (r: Vec<u8>)
        ensures
            r@ == self.stype_out_symbol@.take(nul_prefix_len(self.stype_out_symbol@) as int),
    {
        c_str_bytes(self.stype_out_symbol.as_slice())
    }
}

} // verus!
