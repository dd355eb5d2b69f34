//! Reference-data records: instrument definitions and order imbalances.

use crate::codec::{
    c_str_bytes, get_array, get_i16_le, get_i32_le, get_i64_le, get_i8, get_u16_le, get_u32_le,
    get_u64_le, get_u8, nul_prefix_len, lemma_auto_spec_i16_to_from_le_bytes, lemma_auto_spec_i32_to_from_le_bytes,
    lemma_auto_spec_i64_to_from_le_bytes, lemma_i8_u8_cast, lemma_u8_i8_cast, put_array,
    put_i16_le, put_i32_le, put_i64_le, put_i8, put_u16_le, put_u32_le, put_u64_le, put_u8,
    spec_i16_to_le_bytes, spec_i32_to_le_bytes, spec_i64_to_le_bytes,
};
use crate::record::{ConstTypeId, RecordHeader, IMBALANCE_TYPE_ID, INSTRUMENT_DEF_MSG_TYPE_ID};
use vstd::bytes::{
    lemma_auto_spec_u16_to_from_le_bytes, lemma_auto_spec_u32_to_from_le_bytes,
    lemma_auto_spec_u64_to_from_le_bytes, spec_u16_to_le_bytes, spec_u32_to_le_bytes,
    spec_u64_to_le_bytes,
};
use vstd::prelude::*;

verus! {

broadcast use vstd::array::group_array_axioms;

/// An order imbalance message, tag [`IMBALANCE_TYPE_ID`]: auction and
/// imbalance pricing and quantities.
#[derive(Clone, Copy, Debug, PartialEq, Eq)]
pub struct Imbalance {
    /// The common header.
    pub hd: RecordHeader,
    /// The capture-server received timestamp in nanoseconds since the UNIX epoch.
    pub ts_recv: u64,
    /// The reference price, signed fixed-point, 1 unit = 1e-9.
    pub ref_price: i64,
    /// The auction time in nanoseconds since the UNIX epoch.
    pub auction_time: u64,
    /// The continuous-book clearing price, signed fixed-point, 1 unit = 1e-9.
    pub cont_book_clr_price: i64,
    /// The auction-interest clearing price, signed fixed-point, 1 unit = 1e-9.
    pub auct_interest_clr_price: i64,
    /// The short-selling-restriction filling price, signed fixed-point, 1 unit = 1e-9.
    pub ssr_filling_price: i64,
    /// The indicative match price, signed fixed-point, 1 unit = 1e-9.
    pub ind_match_price: i64,
    /// The upper collar price, signed fixed-point, 1 unit = 1e-9.
    pub upper_collar: i64,
    /// The lower collar price, signed fixed-point, 1 unit = 1e-9.
    pub lower_collar: i64,
    /// The paired quantity.
    pub paired_qty: u32,
    /// The total imbalance quantity.
    pub total_imbalance_qty: u32,
    /// The market imbalance quantity.
    pub market_imbalance_qty: u32,
    /// The character code of the auction type.
    pub auction_type: u8,
    /// The character code of the order side.
    pub side: u8,
    /// The numeric code of the auction status.
    pub auction_status: u8,
    /// The numeric code of the freeze status.
    pub freeze_status: u8,
    /// The number of extensions.
    pub num_extensions: u8,
    /// The unpaired quantity.
    pub unpaired_qty: u8,
    /// The character code of the unpaired side.
    pub unpaired_side: u8,
    /// The character code of the significant imbalance.
    pub significant_imbalance: u8,
    /// Filler for alignment.
    pub _dummy: [u8; 4],
}

impl ConstTypeId for Imbalance {
    open spec fn type_id_spec() -> u8 {
        IMBALANCE_TYPE_ID
    }

    open spec fn size_spec() -> nat {
        112
    }

    open spec fn as_bytes(self) -> Seq<u8> {
        self.hd.as_bytes() + spec_u64_to_le_bytes(self.ts_recv)
            + spec_i64_to_le_bytes(self.ref_price) + spec_u64_to_le_bytes(self.auction_time)
            + spec_i64_to_le_bytes(self.cont_book_clr_price)
            + spec_i64_to_le_bytes(self.auct_interest_clr_price)
            + spec_i64_to_le_bytes(self.ssr_filling_price)
            + spec_i64_to_le_bytes(self.ind_match_price)
            + spec_i64_to_le_bytes(self.upper_collar) + spec_i64_to_le_bytes(self.lower_collar)
            + spec_u32_to_le_bytes(self.paired_qty)
            + spec_u32_to_le_bytes(self.total_imbalance_qty)
            + spec_u32_to_le_bytes(self.market_imbalance_qty)
            + seq![self.auction_type, self.side, self.auction_status, self.freeze_status, self.num_extensions, self.unpaired_qty, self.unpaired_side, self.significant_imbalance]
            + self._dummy@
    }

    open spec fn header_spec(self) -> RecordHeader {
        self.hd
    }

    open spec fn type_label_spec() -> Seq<char> {
        "Imbalance"@
    }

    fn type_id() -> u8 {
        IMBALANCE_TYPE_ID
    }

    fn size_of_record() -> usize {
        112
    }

    fn type_label() -> &'static str {
        "Imbalance"
    }

    fn header(&self) -> &RecordHeader {
        &self.hd
    }

    fn to_bytes(&self) -> (r: Vec<u8>) {
        let mut out = self.hd.to_bytes();
        put_u64_le(&mut out, self.ts_recv);
        put_i64_le(&mut out, self.ref_price);
        put_u64_le(&mut out, self.auction_time);
        put_i64_le(&mut out, self.cont_book_clr_price);
        put_i64_le(&mut out, self.auct_interest_clr_price);
        put_i64_le(&mut out, self.ssr_filling_price);
        put_i64_le(&mut out, self.ind_match_price);
        put_i64_le(&mut out, self.upper_collar);
        put_i64_le(&mut out, self.lower_collar);
        put_u32_le(&mut out, self.paired_qty);
        put_u32_le(&mut out, self.total_imbalance_qty);
        put_u32_le(&mut out, self.market_imbalance_qty);
        put_u8(&mut out, self.auction_type);
        put_u8(&mut out, self.side);
        put_u8(&mut out, self.auction_status);
        put_u8(&mut out, self.freeze_status);
        put_u8(&mut out, self.num_extensions);
        put_u8(&mut out, self.unpaired_qty);
        put_u8(&mut out, self.unpaired_side);
        put_u8(&mut out, self.significant_imbalance);
        put_array(&mut out, &self._dummy);
        assert(out@ =~= self.as_bytes());
        out
    }

    fn from_bytes(bytes: &[u8]) -> (r: Self) {
        let r = Imbalance {
            hd: RecordHeader::from_bytes(bytes),
            ts_recv: get_u64_le(bytes, 16),
            ref_price: get_i64_le(bytes, 24),
            auction_time: get_u64_le(bytes, 32),
            cont_book_clr_price: get_i64_le(bytes, 40),
            auct_interest_clr_price: get_i64_le(bytes, 48),
            ssr_filling_price: get_i64_le(bytes, 56),
            ind_match_price: get_i64_le(bytes, 64),
            upper_collar: get_i64_le(bytes, 72),
            lower_collar: get_i64_le(bytes, 80),
            paired_qty: get_u32_le(bytes, 88),
            total_imbalance_qty: get_u32_le(bytes, 92),
            market_imbalance_qty: get_u32_le(bytes, 96),
            auction_type: get_u8(bytes, 100),
            side: get_u8(bytes, 101),
            auction_status: get_u8(bytes, 102),
            freeze_status: get_u8(bytes, 103),
            num_extensions: get_u8(bytes, 104),
            unpaired_qty: get_u8(bytes, 105),
            unpaired_side: get_u8(bytes, 106),
            significant_imbalance: get_u8(bytes, 107),
            _dummy: get_array(bytes, 108),
        };
        proof {
        lemma_auto_spec_i64_to_from_le_bytes();
        lemma_auto_spec_u32_to_from_le_bytes();
        lemma_auto_spec_u64_to_from_le_bytes();
            assert(r.as_bytes() =~= bytes@.take(112));
        }
        r
    }

    proof fn lemma_size_bounds() {
    }

    proof fn lemma_size(self) {
        self.hd.lemma_len();
        lemma_auto_spec_i64_to_from_le_bytes();
        lemma_auto_spec_u32_to_from_le_bytes();
        lemma_auto_spec_u64_to_from_le_bytes();
    }

    proof fn lemma_header_prefix(self) {
        self.lemma_size();
        self.hd.lemma_fields();
        assert(self.as_bytes().take(16) =~= self.hd.as_bytes());
    }

    proof fn lemma_injective(self, other: Self) {
        lemma_auto_spec_i64_to_from_le_bytes();
        lemma_auto_spec_u32_to_from_le_bytes();
        lemma_auto_spec_u64_to_from_le_bytes();
        self.lemma_header_prefix();
        other.lemma_header_prefix();
        self.hd.lemma_injective(other.hd);
        assert(self.as_bytes().subrange(16, 24) =~= spec_u64_to_le_bytes(self.ts_recv));
        assert(other.as_bytes().subrange(16, 24) =~= spec_u64_to_le_bytes(other.ts_recv));
        assert(self.as_bytes().subrange(24, 32) =~= spec_i64_to_le_bytes(self.ref_price));
        assert(other.as_bytes().subrange(24, 32) =~= spec_i64_to_le_bytes(other.ref_price));
        assert(self.as_bytes().subrange(32, 40) =~= spec_u64_to_le_bytes(self.auction_time));
        assert(other.as_bytes().subrange(32, 40) =~= spec_u64_to_le_bytes(other.auction_time));
        assert(self.as_bytes().subrange(40, 48) =~= spec_i64_to_le_bytes(self.cont_book_clr_price));
        assert(other.as_bytes().subrange(40, 48) =~= spec_i64_to_le_bytes(other.cont_book_clr_price));
        assert(self.as_bytes().subrange(48, 56) =~= spec_i64_to_le_bytes(self.auct_interest_clr_price));
        assert(other.as_bytes().subrange(48, 56) =~= spec_i64_to_le_bytes(other.auct_interest_clr_price));
        assert(self.as_bytes().subrange(56, 64) =~= spec_i64_to_le_bytes(self.ssr_filling_price));
        assert(other.as_bytes().subrange(56, 64) =~= spec_i64_to_le_bytes(other.ssr_filling_price));
        assert(self.as_bytes().subrange(64, 72) =~= spec_i64_to_le_bytes(self.ind_match_price));
        assert(other.as_bytes().subrange(64, 72) =~= spec_i64_to_le_bytes(other.ind_match_price));
        assert(self.as_bytes().subrange(72, 80) =~= spec_i64_to_le_bytes(self.upper_collar));
        assert(other.as_bytes().subrange(72, 80) =~= spec_i64_to_le_bytes(other.upper_collar));
        assert(self.as_bytes().subrange(80, 88) =~= spec_i64_to_le_bytes(self.lower_collar));
        assert(other.as_bytes().subrange(80, 88) =~= spec_i64_to_le_bytes(other.lower_collar));
        assert(self.as_bytes().subrange(88, 92) =~= spec_u32_to_le_bytes(self.paired_qty));
        assert(other.as_bytes().subrange(88, 92) =~= spec_u32_to_le_bytes(other.paired_qty));
        assert(self.as_bytes().subrange(92, 96) =~= spec_u32_to_le_bytes(self.total_imbalance_qty));
        assert(other.as_bytes().subrange(92, 96) =~= spec_u32_to_le_bytes(other.total_imbalance_qty));
        assert(self.as_bytes().subrange(96, 100) =~= spec_u32_to_le_bytes(self.market_imbalance_qty));
        assert(other.as_bytes().subrange(96, 100) =~= spec_u32_to_le_bytes(other.market_imbalance_qty));
        assert(self.as_bytes()[100] == self.auction_type && other.as_bytes()[100] == other.auction_type);
        assert(self.as_bytes()[101] == self.side && other.as_bytes()[101] == other.side);
        assert(self.as_bytes()[102] == self.auction_status && other.as_bytes()[102] == other.auction_status);
        assert(self.as_bytes()[103] == self.freeze_status && other.as_bytes()[103] == other.freeze_status);
        assert(self.as_bytes()[104] == self.num_extensions && other.as_bytes()[104] == other.num_extensions);
        assert(self.as_bytes()[105] == self.unpaired_qty && other.as_bytes()[105] == other.unpaired_qty);
        assert(self.as_bytes()[106] == self.unpaired_side && other.as_bytes()[106] == other.unpaired_side);
        assert(self.as_bytes()[107] == self.significant_imbalance && other.as_bytes()[107] == other.significant_imbalance);
        assert(self.as_bytes().subrange(108, 112) =~= self._dummy@);
        assert(other.as_bytes().subrange(108, 112) =~= other._dummy@);
        assert(self._dummy =~= other._dummy);
    }
}

/// The definition of an instrument, tag [`INSTRUMENT_DEF_MSG_TYPE_ID`]: a
/// large record of fixed-width numeric and character fields.
#[derive(Clone, Copy, Debug, PartialEq, Eq)]
pub struct InstrumentDefMsg {
    /// The common header.
    pub hd: RecordHeader,
    /// The capture-server received timestamp in nanoseconds since the UNIX epoch.
    pub ts_recv: u64,
    /// The minimum price increment, signed fixed-point, 1 unit = 1e-9.
    pub min_price_increment: i64,
    /// The display factor.
    pub display_factor: i64,
    /// The expiration time in nanoseconds since the UNIX epoch.
    pub expiration: u64,
    /// The activation time in nanoseconds since the UNIX epoch.
    pub activation: u64,
    /// The high limit price, signed fixed-point, 1 unit = 1e-9.
    pub high_limit_price: i64,
    /// The low limit price, signed fixed-point, 1 unit = 1e-9.
    pub low_limit_price: i64,
    /// The maximum price variation, signed fixed-point, 1 unit = 1e-9.
    pub max_price_variation: i64,
    /// The trading reference price, signed fixed-point, 1 unit = 1e-9.
    pub trading_reference_price: i64,
    /// The unit-of-measure quantity.
    pub unit_of_measure_qty: i64,
    /// The minimum price increment amount, signed fixed-point, 1 unit = 1e-9.
    pub min_price_increment_amount: i64,
    /// The price ratio.
    pub price_ratio: i64,
    /// The instrument attribute value.
    pub inst_attrib_value: i32,
    /// The ID of the underlying instrument.
    pub underlying_id: u32,
    /// The cleared volume.
    pub cleared_volume: i32,
    /// The implied market depth.
    pub market_depth_implied: i32,
    /// The market depth.
    pub market_depth: i32,
    /// The market segment ID.
    pub market_segment_id: u32,
    /// The maximum trade volume.
    pub max_trade_vol: u32,
    /// The minimum lot size.
    pub min_lot_size: i32,
    /// The minimum block lot size.
    pub min_lot_size_block: i32,
    /// The minimum round-lot size.
    pub min_lot_size_round_lot: i32,
    /// The minimum trade volume.
    pub min_trade_vol: u32,
    /// The open interest quantity.
    pub open_interest_qty: i32,
    /// The contract multiplier.
    pub contract_multiplier: i32,
    /// The decay quantity.
    pub decay_quantity: i32,
    /// The original contract size.
    pub original_contract_size: i32,
    /// The ID of the related security.
    pub related_security_id: u32,
    /// The trading reference date.
    pub trading_reference_date: u16,
    /// The application ID.
    pub appl_id: i16,
    /// The maturity year.
    pub maturity_year: u16,
    /// The decay start date.
    pub decay_start_date: u16,
    /// The channel ID.
    pub channel_id: u16,
    /// The currency, NUL-terminated in a fixed-width field.
    pub currency: [u8; 4],
    /// The settlement currency, NUL-terminated in a fixed-width field.
    pub settl_currency: [u8; 4],
    /// The security subtype, NUL-terminated in a fixed-width field.
    pub secsubtype: [u8; 6],
    /// The instrument symbol, NUL-terminated in a fixed-width field.
    pub symbol: [u8; 22],
    /// The security group, NUL-terminated in a fixed-width field.
    pub group: [u8; 21],
    /// The exchange, NUL-terminated in a fixed-width field.
    pub exchange: [u8; 5],
    /// The asset, NUL-terminated in a fixed-width field.
    pub asset: [u8; 7],
    /// The CFI code, NUL-terminated in a fixed-width field.
    pub cfi: [u8; 7],
    /// The security type, NUL-terminated in a fixed-width field.
    pub security_type: [u8; 7],
    /// The unit of measure, NUL-terminated in a fixed-width field.
    pub unit_of_measure: [u8; 31],
    /// The underlying symbol, NUL-terminated in a fixed-width field.
    pub underlying: [u8; 21],
    /// The related symbol, NUL-terminated in a fixed-width field.
    pub related: [u8; 21],
    /// The character code of the match algorithm.
    pub match_algorithm: u8,
    /// The numeric code of the security trading status.
    pub md_security_trading_status: u8,
    /// The main fraction.
    pub main_fraction: u8,
    /// The price display format.
    pub price_display_format: u8,
    /// The numeric code of the settlement price type.
    pub settl_price_type: u8,
    /// The sub fraction.
    pub sub_fraction: u8,
    /// The numeric code of the underlying product.
    pub underlying_product: u8,
    /// The character code of the security update action.
    pub security_update_action: u8,
    /// The maturity month.
    pub maturity_month: u8,
    /// The maturity day.
    pub maturity_day: u8,
    /// The maturity week.
    pub maturity_week: u8,
    /// The character code flagging a user-defined instrument.
    pub user_defined_instrument: u8,
    /// The contract multiplier unit.
    pub contract_multiplier_unit: i8,
    /// The flow schedule type.
    pub flow_schedule_type: i8,
    /// The tick rule.
    pub tick_rule: u8,
    /// Filler for alignment.
    pub _dummy: [u8; 3],
}

impl ConstTypeId for InstrumentDefMsg {
    open spec fn type_id_spec() -> u8 {
        INSTRUMENT_DEF_MSG_TYPE_ID
    }

    open spec fn size_spec() -> nat {
        360
    }

    open spec fn as_bytes(self) -> Seq<u8> {
        self.hd.as_bytes() + spec_u64_to_le_bytes(self.ts_recv)
            + spec_i64_to_le_bytes(self.min_price_increment)
            + spec_i64_to_le_bytes(self.display_factor) + spec_u64_to_le_bytes(self.expiration)
            + spec_u64_to_le_bytes(self.activation)
            + spec_i64_to_le_bytes(self.high_limit_price)
            + spec_i64_to_le_bytes(self.low_limit_price)
            + spec_i64_to_le_bytes(self.max_price_variation)
            + spec_i64_to_le_bytes(self.trading_reference_price)
            + spec_i64_to_le_bytes(self.unit_of_measure_qty)
            + spec_i64_to_le_bytes(self.min_price_increment_amount)
            + spec_i64_to_le_bytes(self.price_ratio)
            + spec_i32_to_le_bytes(self.inst_attrib_value)
            + spec_u32_to_le_bytes(self.underlying_id)
            + spec_i32_to_le_bytes(self.cleared_volume)
            + spec_i32_to_le_bytes(self.market_depth_implied)
            + spec_i32_to_le_bytes(self.market_depth)
            + spec_u32_to_le_bytes(self.market_segment_id)
            + spec_u32_to_le_bytes(self.max_trade_vol) + spec_i32_to_le_bytes(self.min_lot_size)
            + spec_i32_to_le_bytes(self.min_lot_size_block)
            + spec_i32_to_le_bytes(self.min_lot_size_round_lot)
            + spec_u32_to_le_bytes(self.min_trade_vol)
            + spec_i32_to_le_bytes(self.open_interest_qty)
            + spec_i32_to_le_bytes(self.contract_multiplier)
            + spec_i32_to_le_bytes(self.decay_quantity)
            + spec_i32_to_le_bytes(self.original_contract_size)
            + spec_u32_to_le_bytes(self.related_security_id)
            + spec_u16_to_le_bytes(self.trading_reference_date)
            + spec_i16_to_le_bytes(self.appl_id) + spec_u16_to_le_bytes(self.maturity_year)
            + spec_u16_to_le_bytes(self.decay_start_date)
            + spec_u16_to_le_bytes(self.channel_id) + self.currency@ + self.settl_currency@
            + self.secsubtype@ + self.symbol@ + self.group@ + self.exchange@ + self.asset@
            + self.cfi@ + self.security_type@ + self.unit_of_measure@ + self.underlying@
            + self.related@
            + seq![self.match_algorithm, self.md_security_trading_status, self.main_fraction, self.price_display_format, self.settl_price_type, self.sub_fraction, self.underlying_product, self.security_update_action, self.maturity_month, self.maturity_day, self.maturity_week, self.user_defined_instrument, self.contract_multiplier_unit as u8, self.flow_schedule_type as u8, self.tick_rule]
            + self._dummy@
    }

    open spec fn header_spec(self) -> RecordHeader {
        self.hd
    }

    open spec fn type_label_spec() -> Seq<char> {
        "InstrumentDefMsg"@
    }

    fn type_id() -> u8 {
        INSTRUMENT_DEF_MSG_TYPE_ID
    }

    fn size_of_record() -> usize {
        360
    }

    fn type_label() -> &'static str {
        "InstrumentDefMsg"
    }

    fn header(&self) -> &RecordHeader {
        &self.hd
    }

    #[verifier::rlimit(100)]
    fn to_bytes(&self) -> (r: Vec<u8>) {
        let mut out = self.hd.to_bytes();
        put_u64_le(&mut out, self.ts_recv);
        put_i64_le(&mut out, self.min_price_increment);
        put_i64_le(&mut out, self.display_factor);
        put_u64_le(&mut out, self.expiration);
        put_u64_le(&mut out, self.activation);
        put_i64_le(&mut out, self.high_limit_price);
        put_i64_le(&mut out, self.low_limit_price);
        put_i64_le(&mut out, self.max_price_variation);
        put_i64_le(&mut out, self.trading_reference_price);
        put_i64_le(&mut out, self.unit_of_measure_qty);
        put_i64_le(&mut out, self.min_price_increment_amount);
        put_i64_le(&mut out, self.price_ratio);
        put_i32_le(&mut out, self.inst_attrib_value);
        put_u32_le(&mut out, self.underlying_id);
        put_i32_le(&mut out, self.cleared_volume);
        put_i32_le(&mut out, self.market_depth_implied);
        put_i32_le(&mut out, self.market_depth);
        put_u32_le(&mut out, self.market_segment_id);
        put_u32_le(&mut out, self.max_trade_vol);
        put_i32_le(&mut out, self.min_lot_size);
        put_i32_le(&mut out, self.min_lot_size_block);
        put_i32_le(&mut out, self.min_lot_size_round_lot);
        put_u32_le(&mut out, self.min_trade_vol);
        put_i32_le(&mut out, self.open_interest_qty);
        put_i32_le(&mut out, self.contract_multiplier);
        put_i32_le(&mut out, self.decay_quantity);
        put_i32_le(&mut out, self.original_contract_size);
        put_u32_le(&mut out, self.related_security_id);
        put_u16_le(&mut out, self.trading_reference_date);
        put_i16_le(&mut out, self.appl_id);
        put_u16_le(&mut out, self.maturity_year);
        put_u16_le(&mut out, self.decay_start_date);
        put_u16_le(&mut out, self.channel_id);
        put_array(&mut out, &self.currency);
        put_array(&mut out, &self.settl_currency);
        put_array(&mut out, &self.secsubtype);
        put_array(&mut out, &self.symbol);
        put_array(&mut out, &self.group);
        put_array(&mut out, &self.exchange);
        put_array(&mut out, &self.asset);
        put_array(&mut out, &self.cfi);
        put_array(&mut out, &self.security_type);
        put_array(&mut out, &self.unit_of_measure);
        put_array(&mut out, &self.underlying);
        put_array(&mut out, &self.related);
        put_u8(&mut out, self.match_algorithm);
        put_u8(&mut out, self.md_security_trading_status);
        put_u8(&mut out, self.main_fraction);
        put_u8(&mut out, self.price_display_format);
        put_u8(&mut out, self.settl_price_type);
        put_u8(&mut out, self.sub_fraction);
        put_u8(&mut out, self.underlying_product);
        put_u8(&mut out, self.security_update_action);
        put_u8(&mut out, self.maturity_month);
        put_u8(&mut out, self.maturity_day);
        put_u8(&mut out, self.maturity_week);
        put_u8(&mut out, self.user_defined_instrument);
        put_i8(&mut out, self.contract_multiplier_unit);
        put_i8(&mut out, self.flow_schedule_type);
        put_u8(&mut out, self.tick_rule);
        put_array(&mut out, &self._dummy);
        assert(out@ =~= self.as_bytes());
        out
    }

    #[verifier::rlimit(100)]
    fn from_bytes(bytes: &[u8]) -> (r: Self) {
        let r = InstrumentDefMsg {
            hd: RecordHeader::from_bytes(bytes),
            ts_recv: get_u64_le(bytes, 16),
            min_price_increment: get_i64_le(bytes, 24),
            display_factor: get_i64_le(bytes, 32),
            expiration: get_u64_le(bytes, 40),
            activation: get_u64_le(bytes, 48),
            high_limit_price: get_i64_le(bytes, 56),
            low_limit_price: get_i64_le(bytes, 64),
            max_price_variation: get_i64_le(bytes, 72),
            trading_reference_price: get_i64_le(bytes, 80),
            unit_of_measure_qty: get_i64_le(bytes, 88),
            min_price_increment_amount: get_i64_le(bytes, 96),
            price_ratio: get_i64_le(bytes, 104),
            inst_attrib_value: get_i32_le(bytes, 112),
            underlying_id: get_u32_le(bytes, 116),
            cleared_volume: get_i32_le(bytes, 120),
            market_depth_implied: get_i32_le(bytes, 124),
            market_depth: get_i32_le(bytes, 128),
            market_segment_id: get_u32_le(bytes, 132),
            max_trade_vol: get_u32_le(bytes, 136),
            min_lot_size: get_i32_le(bytes, 140),
            min_lot_size_block: get_i32_le(bytes, 144),
            min_lot_size_round_lot: get_i32_le(bytes, 148),
            min_trade_vol: get_u32_le(bytes, 152),
            open_interest_qty: get_i32_le(bytes, 156),
            contract_multiplier: get_i32_le(bytes, 160),
            decay_quantity: get_i32_le(bytes, 164),
            original_contract_size: get_i32_le(bytes, 168),
            related_security_id: get_u32_le(bytes, 172),
            trading_reference_date: get_u16_le(bytes, 176),
            appl_id: get_i16_le(bytes, 178),
            maturity_year: get_u16_le(bytes, 180),
            decay_start_date: get_u16_le(bytes, 182),
            channel_id: get_u16_le(bytes, 184),
            currency: get_array(bytes, 186),
            settl_currency: get_array(bytes, 190),
            secsubtype: get_array(bytes, 194),
            symbol: get_array(bytes, 200),
            group: get_array(bytes, 222),
            exchange: get_array(bytes, 243),
            asset: get_array(bytes, 248),
            cfi: get_array(bytes, 255),
            security_type: get_array(bytes, 262),
            unit_of_measure: get_array(bytes, 269),
            underlying: get_array(bytes, 300),
            related: get_array(bytes, 321),
            match_algorithm: get_u8(bytes, 342),
            md_security_trading_status: get_u8(bytes, 343),
            main_fraction: get_u8(bytes, 344),
            price_display_format: get_u8(bytes, 345),
            settl_price_type: get_u8(bytes, 346),
            sub_fraction: get_u8(bytes, 347),
            underlying_product: get_u8(bytes, 348),
            security_update_action: get_u8(bytes, 349),
            maturity_month: get_u8(bytes, 350),
            maturity_day: get_u8(bytes, 351),
            maturity_week: get_u8(bytes, 352),
            user_defined_instrument: get_u8(bytes, 353),
            contract_multiplier_unit: get_i8(bytes, 354),
            flow_schedule_type: get_i8(bytes, 355),
            tick_rule: get_u8(bytes, 356),
            _dummy: get_array(bytes, 357),
        };
        proof {
        lemma_auto_spec_i16_to_from_le_bytes();
        lemma_auto_spec_i32_to_from_le_bytes();
        lemma_auto_spec_i64_to_from_le_bytes();
        lemma_auto_spec_u16_to_from_le_bytes();
        lemma_auto_spec_u32_to_from_le_bytes();
        lemma_auto_spec_u64_to_from_le_bytes();
            lemma_u8_i8_cast(bytes@[354]);
            lemma_u8_i8_cast(bytes@[355]);
            assert(r.as_bytes() =~= bytes@.take(360));
        }
        r
    }

    proof fn lemma_size_bounds() {
    }

    proof fn lemma_size(self) {
        self.hd.lemma_len();
        lemma_auto_spec_i16_to_from_le_bytes();
        lemma_auto_spec_i32_to_from_le_bytes();
        lemma_auto_spec_i64_to_from_le_bytes();
        lemma_auto_spec_u16_to_from_le_bytes();
        lemma_auto_spec_u32_to_from_le_bytes();
        lemma_auto_spec_u64_to_from_le_bytes();
    }

    proof fn lemma_header_prefix(self) {
        self.lemma_size();
        self.hd.lemma_fields();
        assert(self.as_bytes().take(16) =~= self.hd.as_bytes());
    }

    proof fn lemma_injective(self, other: Self) {
        self.lemma_header_prefix();
        other.lemma_header_prefix();
        self.hd.lemma_injective(other.hd);
        self.lemma_fields_eq_0(other);
        self.lemma_fields_eq_1(other);
        self.lemma_fields_eq_2(other);
        self.lemma_fields_eq_3(other);
        self.lemma_fields_eq_4(other);
        self.lemma_fields_eq_5(other);
        self.lemma_fields_eq_6(other);
        self.lemma_fields_eq_7(other);
    }
}

impl InstrumentDefMsg {

    /// Serialized-form equality forces equality of one group of fields.
    #[verifier::rlimit(100)]
    proof fn lemma_fields_eq_0(self, other: Self)
        requires
            self.as_bytes() == other.as_bytes(),
        ensures
            self.ts_recv == other.ts_recv,
            self.min_price_increment == other.min_price_increment,
            self.display_factor == other.display_factor,
            self.expiration == other.expiration,
            self.activation == other.activation,
            self.high_limit_price == other.high_limit_price,
            self.low_limit_price == other.low_limit_price,
            self.max_price_variation == other.max_price_variation,
    {
        self.lemma_size();
        other.lemma_size();
        lemma_auto_spec_i16_to_from_le_bytes();
        lemma_auto_spec_i32_to_from_le_bytes();
        lemma_auto_spec_i64_to_from_le_bytes();
        lemma_auto_spec_u16_to_from_le_bytes();
        lemma_auto_spec_u32_to_from_le_bytes();
        lemma_auto_spec_u64_to_from_le_bytes();
        assert(self.as_bytes().subrange(16, 24) =~= spec_u64_to_le_bytes(self.ts_recv));
        assert(other.as_bytes().subrange(16, 24) =~= spec_u64_to_le_bytes(other.ts_recv));
        assert(self.as_bytes().subrange(24, 32) =~= spec_i64_to_le_bytes(self.min_price_increment));
        assert(other.as_bytes().subrange(24, 32) =~= spec_i64_to_le_bytes(other.min_price_increment));
        assert(self.as_bytes().subrange(32, 40) =~= spec_i64_to_le_bytes(self.display_factor));
        assert(other.as_bytes().subrange(32, 40) =~= spec_i64_to_le_bytes(other.display_factor));
        assert(self.as_bytes().subrange(40, 48) =~= spec_u64_to_le_bytes(self.expiration));
        assert(other.as_bytes().subrange(40, 48) =~= spec_u64_to_le_bytes(other.expiration));
        assert(self.as_bytes().subrange(48, 56) =~= spec_u64_to_le_bytes(self.activation));
        assert(other.as_bytes().subrange(48, 56) =~= spec_u64_to_le_bytes(other.activation));
        assert(self.as_bytes().subrange(56, 64) =~= spec_i64_to_le_bytes(self.high_limit_price));
        assert(other.as_bytes().subrange(56, 64) =~= spec_i64_to_le_bytes(other.high_limit_price));
        assert(self.as_bytes().subrange(64, 72) =~= spec_i64_to_le_bytes(self.low_limit_price));
        assert(other.as_bytes().subrange(64, 72) =~= spec_i64_to_le_bytes(other.low_limit_price));
        assert(self.as_bytes().subrange(72, 80) =~= spec_i64_to_le_bytes(self.max_price_variation));
        assert(other.as_bytes().subrange(72, 80) =~= spec_i64_to_le_bytes(other.max_price_variation));
    }

    /// Serialized-form equality forces equality of one group of fields.
    #[verifier::rlimit(100)]
    proof fn lemma_fields_eq_1(self, other: Self)
        requires
            self.as_bytes() == other.as_bytes(),
        ensures
            self.trading_reference_price == other.trading_reference_price,
            self.unit_of_measure_qty == other.unit_of_measure_qty,
            self.min_price_increment_amount == other.min_price_increment_amount,
            self.price_ratio == other.price_ratio,
            self.inst_attrib_value == other.inst_attrib_value,
            self.underlying_id == other.underlying_id,
            self.cleared_volume == other.cleared_volume,
            self.market_depth_implied == other.market_depth_implied,
    {
        self.lemma_size();
        other.lemma_size();
        lemma_auto_spec_i16_to_from_le_bytes();
        lemma_auto_spec_i32_to_from_le_bytes();
        lemma_auto_spec_i64_to_from_le_bytes();
        lemma_auto_spec_u16_to_from_le_bytes();
        lemma_auto_spec_u32_to_from_le_bytes();
        lemma_auto_spec_u64_to_from_le_bytes();
        assert(self.as_bytes().subrange(80, 88) =~= spec_i64_to_le_bytes(self.trading_reference_price));
        assert(other.as_bytes().subrange(80, 88) =~= spec_i64_to_le_bytes(other.trading_reference_price));
        assert(self.as_bytes().subrange(88, 96) =~= spec_i64_to_le_bytes(self.unit_of_measure_qty));
        assert(other.as_bytes().subrange(88, 96) =~= spec_i64_to_le_bytes(other.unit_of_measure_qty));
        assert(self.as_bytes().subrange(96, 104) =~= spec_i64_to_le_bytes(self.min_price_increment_amount));
        assert(other.as_bytes().subrange(96, 104) =~= spec_i64_to_le_bytes(other.min_price_increment_amount));
        assert(self.as_bytes().subrange(104, 112) =~= spec_i64_to_le_bytes(self.price_ratio));
        assert(other.as_bytes().subrange(104, 112) =~= spec_i64_to_le_bytes(other.price_ratio));
        assert(self.as_bytes().subrange(112, 116) =~= spec_i32_to_le_bytes(self.inst_attrib_value));
        assert(other.as_bytes().subrange(112, 116) =~= spec_i32_to_le_bytes(other.inst_attrib_value));
        assert(self.as_bytes().subrange(116, 120) =~= spec_u32_to_le_bytes(self.underlying_id));
        assert(other.as_bytes().subrange(116, 120) =~= spec_u32_to_le_bytes(other.underlying_id));
        assert(self.as_bytes().subrange(120, 124) =~= spec_i32_to_le_bytes(self.cleared_volume));
        assert(other.as_bytes().subrange(120, 124) =~= spec_i32_to_le_bytes(other.cleared_volume));
        assert(self.as_bytes().subrange(124, 128) =~= spec_i32_to_le_bytes(self.market_depth_implied));
        assert(other.as_bytes().subrange(124, 128) =~= spec_i32_to_le_bytes(other.market_depth_implied));
    }

    /// Serialized-form equality forces equality of one group of fields.
    #[verifier::rlimit(100)]
    proof fn lemma_fields_eq_2(self, other: Self)
        requires
            self.as_bytes() == other.as_bytes(),
        ensures
            self.market_depth == other.market_depth,
            self.market_segment_id == other.market_segment_id,
            self.max_trade_vol == other.max_trade_vol,
            self.min_lot_size == other.min_lot_size,
            self.min_lot_size_block == other.min_lot_size_block,
            self.min_lot_size_round_lot == other.min_lot_size_round_lot,
            self.min_trade_vol == other.min_trade_vol,
            self.open_interest_qty == other.open_interest_qty,
    {
        self.lemma_size();
        other.lemma_size();
        lemma_auto_spec_i16_to_from_le_bytes();
        lemma_auto_spec_i32_to_from_le_bytes();
        lemma_auto_spec_i64_to_from_le_bytes();
        lemma_auto_spec_u16_to_from_le_bytes();
        lemma_auto_spec_u32_to_from_le_bytes();
        lemma_auto_spec_u64_to_from_le_bytes();
        assert(self.as_bytes().subrange(128, 132) =~= spec_i32_to_le_bytes(self.market_depth));
        assert(other.as_bytes().subrange(128, 132) =~= spec_i32_to_le_bytes(other.market_depth));
        assert(self.as_bytes().subrange(132, 136) =~= spec_u32_to_le_bytes(self.market_segment_id));
        assert(other.as_bytes().subrange(132, 136) =~= spec_u32_to_le_bytes(other.market_segment_id));
        assert(self.as_bytes().subrange(136, 140) =~= spec_u32_to_le_bytes(self.max_trade_vol));
        assert(other.as_bytes().subrange(136, 140) =~= spec_u32_to_le_bytes(other.max_trade_vol));
        assert(self.as_bytes().subrange(140, 144) =~= spec_i32_to_le_bytes(self.min_lot_size));
        assert(other.as_bytes().subrange(140, 144) =~= spec_i32_to_le_bytes(other.min_lot_size));
        assert(self.as_bytes().subrange(144, 148) =~= spec_i32_to_le_bytes(self.min_lot_size_block));
        assert(other.as_bytes().subrange(144, 148) =~= spec_i32_to_le_bytes(other.min_lot_size_block));
        assert(self.as_bytes().subrange(148, 152) =~= spec_i32_to_le_bytes(self.min_lot_size_round_lot));
        assert(other.as_bytes().subrange(148, 152) =~= spec_i32_to_le_bytes(other.min_lot_size_round_lot));
        assert(self.as_bytes().subrange(152, 156) =~= spec_u32_to_le_bytes(self.min_trade_vol));
        assert(other.as_bytes().subrange(152, 156) =~= spec_u32_to_le_bytes(other.min_trade_vol));
        assert(self.as_bytes().subrange(156, 160) =~= spec_i32_to_le_bytes(self.open_interest_qty));
        assert(other.as_bytes().subrange(156, 160) =~= spec_i32_to_le_bytes(other.open_interest_qty));
    }

    /// Serialized-form equality forces equality of one group of fields.
    #[verifier::rlimit(100)]
    proof fn lemma_fields_eq_3(self, other: Self)
        requires
            self.as_bytes() == other.as_bytes(),
        ensures
            self.contract_multiplier == other.contract_multiplier,
            self.decay_quantity == other.decay_quantity,
            self.original_contract_size == other.original_contract_size,
            self.related_security_id == other.related_security_id,
            self.trading_reference_date == other.trading_reference_date,
            self.appl_id == other.appl_id,
            self.maturity_year == other.maturity_year,
            self.decay_start_date == other.decay_start_date,
    {
        self.lemma_size();
        other.lemma_size();
        lemma_auto_spec_i16_to_from_le_bytes();
        lemma_auto_spec_i32_to_from_le_bytes();
        lemma_auto_spec_i64_to_from_le_bytes();
        lemma_auto_spec_u16_to_from_le_bytes();
        lemma_auto_spec_u32_to_from_le_bytes();
        lemma_auto_spec_u64_to_from_le_bytes();
        assert(self.as_bytes().subrange(160, 164) =~= spec_i32_to_le_bytes(self.contract_multiplier));
        assert(other.as_bytes().subrange(160, 164) =~= spec_i32_to_le_bytes(other.contract_multiplier));
        assert(self.as_bytes().subrange(164, 168) =~= spec_i32_to_le_bytes(self.decay_quantity));
        assert(other.as_bytes().subrange(164, 168) =~= spec_i32_to_le_bytes(other.decay_quantity));
        assert(self.as_bytes().subrange(168, 172) =~= spec_i32_to_le_bytes(self.original_contract_size));
        assert(other.as_bytes().subrange(168, 172) =~= spec_i32_to_le_bytes(other.original_contract_size));
        assert(self.as_bytes().subrange(172, 176) =~= spec_u32_to_le_bytes(self.related_security_id));
        assert(other.as_bytes().subrange(172, 176) =~= spec_u32_to_le_bytes(other.related_security_id));
        assert(self.as_bytes().subrange(176, 178) =~= spec_u16_to_le_bytes(self.trading_reference_date));
        assert(other.as_bytes().subrange(176, 178) =~= spec_u16_to_le_bytes(other.trading_reference_date));
        assert(self.as_bytes().subrange(178, 180) =~= spec_i16_to_le_bytes(self.appl_id));
        assert(other.as_bytes().subrange(178, 180) =~= spec_i16_to_le_bytes(other.appl_id));
        assert(self.as_bytes().subrange(180, 182) =~= spec_u16_to_le_bytes(self.maturity_year));
        assert(other.as_bytes().subrange(180, 182) =~= spec_u16_to_le_bytes(other.maturity_year));
        assert(self.as_bytes().subrange(182, 184) =~= spec_u16_to_le_bytes(self.decay_start_date));
        assert(other.as_bytes().subrange(182, 184) =~= spec_u16_to_le_bytes(other.decay_start_date));
    }

    /// Serialized-form equality forces equality of one group of fields.
    #[verifier::rlimit(100)]
    proof fn lemma_fields_eq_4(self, other: Self)
        requires
            self.as_bytes() == other.as_bytes(),
        ensures
            self.channel_id == other.channel_id,
            self.currency == other.currency,
            self.settl_currency == other.settl_currency,
            self.secsubtype == other.secsubtype,
            self.symbol == other.symbol,
            self.group == other.group,
            self.exchange == other.exchange,
            self.asset == other.asset,
    {
        self.lemma_size();
        other.lemma_size();
        lemma_auto_spec_i16_to_from_le_bytes();
        lemma_auto_spec_i32_to_from_le_bytes();
        lemma_auto_spec_i64_to_from_le_bytes();
        lemma_auto_spec_u16_to_from_le_bytes();
        lemma_auto_spec_u32_to_from_le_bytes();
        lemma_auto_spec_u64_to_from_le_bytes();
        assert(self.as_bytes().subrange(184, 186) =~= spec_u16_to_le_bytes(self.channel_id));
        assert(other.as_bytes().subrange(184, 186) =~= spec_u16_to_le_bytes(other.channel_id));
        assert(self.as_bytes().subrange(186, 190) =~= self.currency@);
        assert(other.as_bytes().subrange(186, 190) =~= other.currency@);
        assert(self.currency =~= other.currency);
        assert(self.as_bytes().subrange(190, 194) =~= self.settl_currency@);
        assert(other.as_bytes().subrange(190, 194) =~= other.settl_currency@);
        assert(self.settl_currency =~= other.settl_currency);
        assert(self.as_bytes().subrange(194, 200) =~= self.secsubtype@);
        assert(other.as_bytes().subrange(194, 200) =~= other.secsubtype@);
        assert(self.secsubtype =~= other.secsubtype);
        assert(self.as_bytes().subrange(200, 222) =~= self.symbol@);
        assert(other.as_bytes().subrange(200, 222) =~= other.symbol@);
        assert(self.symbol =~= other.symbol);
        assert(self.as_bytes().subrange(222, 243) =~= self.group@);
        assert(other.as_bytes().subrange(222, 243) =~= other.group@);
        assert(self.group =~= other.group);
        assert(self.as_bytes().subrange(243, 248) =~= self.exchange@);
        assert(other.as_bytes().subrange(243, 248) =~= other.exchange@);
        assert(self.exchange =~= other.exchange);
        assert(self.as_bytes().subrange(248, 255) =~= self.asset@);
        assert(other.as_bytes().subrange(248, 255) =~= other.asset@);
        assert(self.asset =~= other.asset);
    }

    /// Serialized-form equality forces equality of one group of fields.
    #[verifier::rlimit(100)]
    proof fn lemma_fields_eq_5(self, other: Self)
        requires
            self.as_bytes() == other.as_bytes(),
        ensures
            self.cfi == other.cfi,
            self.security_type == other.security_type,
            self.unit_of_measure == other.unit_of_measure,
            self.underlying == other.underlying,
            self.related == other.related,
            self.match_algorithm == other.match_algorithm,
            self.md_security_trading_status == other.md_security_trading_status,
            self.main_fraction == other.main_fraction,
    {
        self.lemma_size();
        other.lemma_size();
        lemma_auto_spec_i16_to_from_le_bytes();
        lemma_auto_spec_i32_to_from_le_bytes();
        lemma_auto_spec_i64_to_from_le_bytes();
        lemma_auto_spec_u16_to_from_le_bytes();
        lemma_auto_spec_u32_to_from_le_bytes();
        lemma_auto_spec_u64_to_from_le_bytes();
        assert(self.as_bytes().subrange(255, 262) =~= self.cfi@);
        assert(other.as_bytes().subrange(255, 262) =~= other.cfi@);
        assert(self.cfi =~= other.cfi);
        assert(self.as_bytes().subrange(262, 269) =~= self.security_type@);
        assert(other.as_bytes().subrange(262, 269) =~= other.security_type@);
        assert(self.security_type =~= other.security_type);
        assert(self.as_bytes().subrange(269, 300) =~= self.unit_of_measure@);
        assert(other.as_bytes().subrange(269, 300) =~= other.unit_of_measure@);
        assert(self.unit_of_measure =~= other.unit_of_measure);
        assert(self.as_bytes().subrange(300, 321) =~= self.underlying@);
        assert(other.as_bytes().subrange(300, 321) =~= other.underlying@);
        assert(self.underlying =~= other.underlying);
        assert(self.as_bytes().subrange(321, 342) =~= self.related@);
        assert(other.as_bytes().subrange(321, 342) =~= other.related@);
        assert(self.related =~= other.related);
        assert(self.as_bytes()[342] == self.match_algorithm && other.as_bytes()[342] == other.match_algorithm);
        assert(self.as_bytes()[343] == self.md_security_trading_status && other.as_bytes()[343] == other.md_security_trading_status);
        assert(self.as_bytes()[344] == self.main_fraction && other.as_bytes()[344] == other.main_fraction);
    }

    /// Serialized-form equality forces equality of one group of fields.
    #[verifier::rlimit(100)]
    proof fn lemma_fields_eq_6(self, other: Self)
        requires
            self.as_bytes() == other.as_bytes(),
        ensures
            self.price_display_format == other.price_display_format,
            self.settl_price_type == other.settl_price_type,
            self.sub_fraction == other.sub_fraction,
            self.underlying_product == other.underlying_product,
            self.security_update_action == other.security_update_action,
            self.maturity_month == other.maturity_month,
            self.maturity_day == other.maturity_day,
            self.maturity_week == other.maturity_week,
    {
        self.lemma_size();
        other.lemma_size();
        lemma_auto_spec_i16_to_from_le_bytes();
        lemma_auto_spec_i32_to_from_le_bytes();
        lemma_auto_spec_i64_to_from_le_bytes();
        lemma_auto_spec_u16_to_from_le_bytes();
        lemma_auto_spec_u32_to_from_le_bytes();
        lemma_auto_spec_u64_to_from_le_bytes();
        assert(self.as_bytes()[345] == self.price_display_format && other.as_bytes()[345] == other.price_display_format);
        assert(self.as_bytes()[346] == self.settl_price_type && other.as_bytes()[346] == other.settl_price_type);
        assert(self.as_bytes()[347] == self.sub_fraction && other.as_bytes()[347] == other.sub_fraction);
        assert(self.as_bytes()[348] == self.underlying_product && other.as_bytes()[348] == other.underlying_product);
        assert(self.as_bytes()[349] == self.security_update_action && other.as_bytes()[349] == other.security_update_action);
        assert(self.as_bytes()[350] == self.maturity_month && other.as_bytes()[350] == other.maturity_month);
        assert(self.as_bytes()[351] == self.maturity_day && other.as_bytes()[351] == other.maturity_day);
        assert(self.as_bytes()[352] == self.maturity_week && other.as_bytes()[352] == other.maturity_week);
    }

    /// Serialized-form equality forces equality of one group of fields.
    #[verifier::rlimit(100)]
    proof fn lemma_fields_eq_7(self, other: Self)
        requires
            self.as_bytes() == other.as_bytes(),
        ensures
            self.user_defined_instrument == other.user_defined_instrument,
            self.contract_multiplier_unit == other.contract_multiplier_unit,
            self.flow_schedule_type == other.flow_schedule_type,
            self.tick_rule == other.tick_rule,
            self._dummy == other._dummy,
    {
        self.lemma_size();
        other.lemma_size();
        lemma_auto_spec_i16_to_from_le_bytes();
        lemma_auto_spec_i32_to_from_le_bytes();
        lemma_auto_spec_i64_to_from_le_bytes();
        lemma_auto_spec_u16_to_from_le_bytes();
        lemma_auto_spec_u32_to_from_le_bytes();
        lemma_auto_spec_u64_to_from_le_bytes();
        assert(self.as_bytes()[353] == self.user_defined_instrument && other.as_bytes()[353] == other.user_defined_instrument);
        assert(self.as_bytes()[354] == self.contract_multiplier_unit as u8 && other.as_bytes()[354] == other.contract_multiplier_unit as u8);
        lemma_i8_u8_cast(self.contract_multiplier_unit);
        lemma_i8_u8_cast(other.contract_multiplier_unit);
        assert(self.as_bytes()[355] == self.flow_schedule_type as u8 && other.as_bytes()[355] == other.flow_schedule_type as u8);
        lemma_i8_u8_cast(self.flow_schedule_type);
        lemma_i8_u8_cast(other.flow_schedule_type);
        assert(self.as_bytes()[356] == self.tick_rule && other.as_bytes()[356] == other.tick_rule);
        assert(self.as_bytes().subrange(357, 360) =~= self._dummy@);
        assert(other.as_bytes().subrange(357, 360) =~= other._dummy@);
        assert(self._dummy =~= other._dummy);
    }
}

impl InstrumentDefMsg {

    /// The meaningful text of `currency`: the bytes up to, and not
    /// including, the first NUL.
    pub fn currency_bytes(&self) -> (r: Vec<u8>)
        ensures
            r@ == self.currency@.take(nul_prefix_len(self.currency@) as int),
    {
        c_str_bytes(self.currency.as_slice())
    }

    /// The meaningful text of `settl_currency`: the bytes up to, and not
    /// including, the first NUL.
    pub fn settl_currency_bytes(&self) -> (r: Vec<u8>)
        ensures
            r@ == self.settl_currency@.take(nul_prefix_len(self.settl_currency@) as int),
    {
        c_str_bytes(self.settl_currency.as_slice())
    }

    /// The meaningful text of `secsubtype`: the bytes up to, and not
    /// including, the first NUL.
    pub fn secsubtype_bytes(&self) -> (r: Vec<u8>)
        ensures
            r@ == self.secsubtype@.take(nul_prefix_len(self.secsubtype@) as int),
    {
        c_str_bytes(self.secsubtype.as_slice())
    }

    /// The meaningful text of `symbol`: the bytes up to, and not
    /// including, the first NUL.
    pub fn symbol_bytes(&self) -> (r: Vec<u8>)
        ensures
            r@ == self.symbol@.take(nul_prefix_len(self.symbol@) as int),
    {
        c_str_bytes(self.symbol.as_slice())
    }

    /// The meaningful text of `group`: the bytes up to, and not
    /// including, the first NUL.
    pub fn group_bytes(&self) -> (r: Vec<u8>)
        ensures
            r@ == self.group@.take(nul_prefix_len(self.group@) as int),
    {
        c_str_bytes(self.group.as_slice())
    }

    /// The meaningful text of `exchange`: the bytes up to, and not
    /// including, the first NUL.
    pub fn exchange_bytes(&self) -> (r: Vec<u8>)
        ensures
            r@ == self.exchange@.take(nul_prefix_len(self.exchange@) as int),
    {
        c_str_bytes(self.exchange.as_slice())
    }

    /// The meaningful text of `asset`: the bytes up to, and not
    /// including, the first NUL.
    pub fn asset_bytes(&self) -> (r: Vec<u8>)
        ensures
            r@ == self.asset@.take(nul_prefix_len(self.asset@) as int),
    {
        c_str_bytes(self.asset.as_slice())
    }

    /// The meaningful text of `cfi`: the bytes up to, and not
    /// including, the first NUL.
    pub fn cfi_bytes(&self) -> (r: Vec<u8>)
        ensures
            r@ == self.cfi@.take(nul_prefix_len(self.cfi@) as int),
    {
        c_str_bytes(self.cfi.as_slice())
    }

    /// The meaningful text of `security_type`: the bytes up to, and not
    /// including, the first NUL.
    pub fn security_type_bytes(&self) -> (r: Vec<u8>)
        ensures
            r@ == self.security_type@.take(nul_prefix_len(self.security_type@) as int),
    {
        c_str_bytes(self.security_type.as_slice())
    }

    /// The meaningful text of `unit_of_measure`: the bytes up to, and not
    /// including, the first NUL.
    pub fn unit_of_measure_bytes(&self) -> (r: Vec<u8>)
        ensures
            r@ == self.unit_of_measure@.take(nul_prefix_len(self.unit_of_measure@) as int),
    {
        c_str_bytes(self.unit_of_measure.as_slice())
    }

    /// The meaningful text of `underlying`: the bytes up to, and not
    /// including, the first NUL.
    pub fn underlying_bytes(&self) -> (r: Vec<u8>)
        ensures
            r@ == self.underlying@.take(nul_prefix_len(self.underlying@) as int),
    {
        c_str_bytes(self.underlying.as_slice())
    }

    /// The meaningful text of `related`: the bytes up to, and not
    /// including, the first NUL.
    pub fn related_bytes(&self) -> (r: Vec<u8>)
        ensures
            r@ == self.related@.take(nul_prefix_len(self.related@) as int),
    {
        c_str_bytes(self.related.as_slice())
    }
}

} // verus!
