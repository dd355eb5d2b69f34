use databento_defs::record::{
    transmute_header_bytes, transmute_into_header, transmute_record, transmute_record_bytes,
    transmute_record_mut, try_record_from_handle, BidAskPair, ConstTypeId, GatewayErrorMsg,
    Imbalance, InstrumentDefMsg, Mbp10Msg, Mbp1Msg, MboMsg, OhlcvMsg, RecordHeader, StatusMsg,
    SymbolMappingMsg, TbboMsg, TradeMsg, GATEWAY_ERROR_MSG_TYPE_ID, IMBALANCE_TYPE_ID,
    INSTRUMENT_DEF_MSG_TYPE_ID, OHLCV_TYPE_ID, STATUS_MSG_TYPE_ID, SYMBOL_MAPPING_MSG_TYPE_ID,
    TICK_MSG_TYPE_ID,
};
use databento_defs::Error;

fn ohlcv_msg() -> OhlcvMsg {
    OhlcvMsg {
        hd: RecordHeader {
            length: 56,
            rtype: 17,
            publisher_id: 1,
            product_id: 5482,
            ts_event: 1609160400000000000,
        },
        open: 372025000000000,
        high: 372050000000000,
        low: 372025000000000,
        close: 372050000000000,
        volume: 57,
    }
}

fn header(rtype: u8, length: u8) -> RecordHeader {
    RecordHeader {
        length,
        rtype,
        publisher_id: 12,
        product_id: 9001,
        ts_event: 1658441851000000000,
    }
}

fn pair(seed: i64) -> BidAskPair {
    BidAskPair {
        bid_px: 100_000_000_000 + seed,
        ask_px: 100_500_000_000 + seed,
        bid_sz: 7 + seed as u32,
        ask_sz: 9 + seed as u32,
        bid_ct: 2,
        ask_ct: 3,
    }
}

#[test]
fn test_transmute_record_bytes() {
    let ohlcv_bytes = ohlcv_msg().to_bytes();
    let ohlcv: OhlcvMsg = transmute_record_bytes(ohlcv_bytes.as_slice()).unwrap();
    assert_eq!(ohlcv, ohlcv_msg());
}

#[test]
#[should_panic]
fn test_transmute_record_bytes_small_buffer() {
    let source = ohlcv_msg();
    let bytes = source.to_bytes();
    let slice = &bytes[..bytes.len() - 5];
    let _: Option<OhlcvMsg> = transmute_record_bytes(slice);
}

#[test]
fn test_transmute_record() {
    let source = ohlcv_msg();
    let bytes = source.to_bytes();
    let ohlcv_ref: OhlcvMsg = transmute_record(&source.hd, bytes.as_slice()).unwrap();
    assert_eq!(ohlcv_ref, source);
}

#[test]
fn test_transmute_record_mut() {
    let source = ohlcv_msg();
    let mut bytes = source.to_bytes();
    assert!(transmute_record_mut(&source.hd, &mut bytes, &source));
    let ohlcv_ref: OhlcvMsg = transmute_record_bytes(bytes.as_slice()).unwrap();
    assert_eq!(ohlcv_ref, source);
}

#[test]
fn test_symbol_mapping_size() {
    assert_eq!(SymbolMappingMsg::size_of_record(), 80);
}

#[test]
fn test_record_sizes() {
    assert_eq!(MboMsg::size_of_record(), 56);
    assert_eq!(TradeMsg::size_of_record(), 48);
    assert_eq!(Mbp1Msg::size_of_record(), 80);
    assert_eq!(Mbp10Msg::size_of_record(), 368);
    assert_eq!(OhlcvMsg::size_of_record(), 56);
    assert_eq!(StatusMsg::size_of_record(), 48);
    assert_eq!(InstrumentDefMsg::size_of_record(), 360);
    assert_eq!(Imbalance::size_of_record(), 112);
    assert_eq!(GatewayErrorMsg::size_of_record(), 80);
}

#[test]
fn test_depth_tags() {
    assert_eq!(TradeMsg::type_id(), 0);
    assert_eq!(Mbp1Msg::type_id(), 1);
    assert_eq!(TbboMsg::type_id(), 1);
    assert_eq!(Mbp10Msg::type_id(), 10);
    assert!(MboMsg::type_id() > 0xF);
    assert!(OhlcvMsg::type_id() > 0xF);
    assert!(StatusMsg::type_id() > 0xF);
    assert!(InstrumentDefMsg::type_id() > 0xF);
    assert!(Imbalance::type_id() > 0xF);
    assert!(GatewayErrorMsg::type_id() > 0xF);
    assert!(SymbolMappingMsg::type_id() > 0xF);
    assert_eq!(MboMsg::type_id(), TICK_MSG_TYPE_ID);
    assert_eq!(OhlcvMsg::type_id(), OHLCV_TYPE_ID);
    assert_eq!(StatusMsg::type_id(), STATUS_MSG_TYPE_ID);
    assert_eq!(InstrumentDefMsg::type_id(), INSTRUMENT_DEF_MSG_TYPE_ID);
    assert_eq!(Imbalance::type_id(), IMBALANCE_TYPE_ID);
    assert_eq!(GatewayErrorMsg::type_id(), GATEWAY_ERROR_MSG_TYPE_ID);
    assert_eq!(SymbolMappingMsg::type_id(), SYMBOL_MAPPING_MSG_TYPE_ID);
}

#[test]
fn test_ohlcv_concrete_scenario() {
    let rec = OhlcvMsg {
        hd: RecordHeader {
            length: 14,
            rtype: 0x11,
            publisher_id: 1,
            product_id: 5482,
            ts_event: 1609160400000000000,
        },
        open: 372025000000000,
        high: 372050000000000,
        low: 372025000000000,
        close: 372050000000000,
        volume: 57,
    };
    let bytes = rec.to_bytes();
    assert_eq!(bytes.len(), 56);

    let v: OhlcvMsg = transmute_record_bytes(bytes.as_slice()).unwrap();
    assert_eq!(v.hd.length, 14);
    assert_eq!(v.hd.rtype, 0x11);
    assert_eq!(v.hd.publisher_id, 1);
    assert_eq!(v.hd.product_id, 5482);
    assert_eq!(v.hd.ts_event, 1609160400000000000);
    assert_eq!(v.open, 372025000000000);
    assert_eq!(v.high, 372050000000000);
    assert_eq!(v.low, 372025000000000);
    assert_eq!(v.close, 372050000000000);
    assert_eq!(v.volume, 57);

    let wrong: Option<StatusMsg> = transmute_record_bytes(bytes.as_slice());
    assert!(wrong.is_none());

    let truncated = &bytes[..50];
    assert!(transmute_header_bytes(truncated).is_none());
}

#[test]
fn test_write_through_updates_volume() {
    let rec = OhlcvMsg { hd: header(0x11, 14), ..ohlcv_msg() };
    let mut bytes = rec.to_bytes();
    let hd = transmute_header_bytes(bytes.as_slice()).unwrap();
    let mut edited = rec;
    edited.volume = 60;
    assert!(transmute_record_mut(&hd, &mut bytes, &edited));
    let fresh: OhlcvMsg = transmute_record_bytes(bytes.as_slice()).unwrap();
    assert_eq!(fresh.volume, 60);
    assert_eq!(fresh, edited);
}

#[test]
fn test_write_through_wrong_tag_leaves_buffer() {
    let rec = OhlcvMsg { hd: header(0x11, 14), ..ohlcv_msg() };
    let mut bytes = rec.to_bytes();
    let before = bytes.clone();
    let hd = transmute_header_bytes(bytes.as_slice()).unwrap();
    let status = StatusMsg {
        hd: header(STATUS_MSG_TYPE_ID, 12),
        ts_recv: 1,
        group: [0; 21],
        trading_status: 0,
        halt_reason: 0,
        trading_event: 0,
    };
    assert!(!transmute_record_mut(&hd, &mut bytes, &status));
    assert_eq!(bytes, before);
}

#[test]
fn test_header_length_validation() {
    // A record whose declared size, `length` words of 4 bytes, is exactly
    // the supplied span is accepted.
    let rec = OhlcvMsg { hd: header(0x11, 14), ..ohlcv_msg() };
    let bytes = rec.to_bytes();
    let hd = transmute_header_bytes(bytes.as_slice()).unwrap();
    assert_eq!(hd.length, 14);
    assert_eq!(hd.rtype, 0x11);
    assert_eq!(hd.publisher_id, 12);
    assert_eq!(hd.product_id, 9001);
    assert_eq!(hd.ts_event, 1658441851000000000);
    // One byte short of the declared size: no header.
    assert!(transmute_header_bytes(&bytes[..55]).is_none());
    // A declared size larger than the whole span: no header.
    let rec = OhlcvMsg { hd: header(0x11, 15), ..ohlcv_msg() };
    let bytes = rec.to_bytes();
    assert!(transmute_header_bytes(bytes.as_slice()).is_none());
}

#[test]
fn test_transmute_into_header() {
    let rec = ohlcv_msg();
    let hd = transmute_into_header(&rec);
    assert_eq!(*hd, rec.hd);
}

#[test]
fn test_try_record_from_handle() {
    let rec = OhlcvMsg { hd: header(0x11, 14), ..ohlcv_msg() };
    let bytes = rec.to_bytes();
    let hd = transmute_header_bytes(bytes.as_slice()).unwrap();

    let ok: Result<OhlcvMsg, Error> = try_record_from_handle(Some(&hd), bytes.as_slice());
    assert_eq!(ok.unwrap(), rec);

    let null: Result<OhlcvMsg, Error> = try_record_from_handle(None, bytes.as_slice());
    assert!(matches!(null, Err(Error::NullPointer)));

    let wrong: Result<StatusMsg, Error> = try_record_from_handle(Some(&hd), bytes.as_slice());
    match wrong {
        Err(Error::TypeConversion(name)) => assert_eq!(name, "StatusMsg"),
        _ => panic!("expected a type conversion error"),
    }
}

#[test]
fn test_mbo_round_trip() {
    let rec = MboMsg {
        hd: header(TICK_MSG_TYPE_ID, 14),
        order_id: 647784973705,
        price: 372025000000000,
        size: 11,
        flags: 128,
        channel_id: 1,
        action: b'A',
        side: b'B',
        ts_recv: 1658441891000000000,
        ts_in_delta: 22000,
        sequence: 1170352,
    };
    let bytes = rec.to_bytes();
    assert_eq!(bytes.len(), 56);
    assert_eq!(bytes[1], TICK_MSG_TYPE_ID);
    let back: MboMsg = transmute_record_bytes(bytes.as_slice()).unwrap();
    assert_eq!(back, rec);
    // Probing for a different record type of the same size is a negative
    // lookup, never a mangled value.
    assert!(transmute_record_bytes::<OhlcvMsg>(bytes.as_slice()).is_none());
}

#[test]
fn test_trade_round_trip() {
    let rec = TradeMsg {
        hd: header(0, 12),
        price: 372025000000000,
        size: 5,
        action: b'T',
        side: b'A',
        flags: 0,
        depth: 0,
        ts_recv: 1658441891000000000,
        ts_in_delta: -1500,
        sequence: 1170353,
        booklevel: [],
    };
    let bytes = rec.to_bytes();
    assert_eq!(bytes.len(), 48);
    assert_eq!(bytes[1], 0);
    let back: TradeMsg = transmute_record_bytes(bytes.as_slice()).unwrap();
    assert_eq!(back, rec);
    assert!(transmute_record_bytes::<StatusMsg>(bytes.as_slice()).is_none());
}

#[test]
fn test_mbp1_round_trip() {
    let rec = Mbp1Msg {
        hd: header(1, 20),
        price: 372025000000000,
        size: 5,
        action: b'M',
        side: b'B',
        flags: 0,
        depth: 1,
        ts_recv: 1658441891000000000,
        ts_in_delta: 22000,
        sequence: 1170354,
        booklevel: [pair(1)],
    };
    let bytes = rec.to_bytes();
    assert_eq!(bytes.len(), 80);
    assert_eq!(bytes[1], 1);
    let back: Mbp1Msg = transmute_record_bytes(bytes.as_slice()).unwrap();
    assert_eq!(back, rec);
}

#[test]
fn test_mbp10_round_trip() {
    let mut booklevel = [pair(0); 10];
    let mut i: i64 = 0;
    while i < 10 {
        booklevel[i as usize] = pair(i);
        i += 1;
    }
    let rec = Mbp10Msg {
        hd: header(10, 92),
        price: 372025000000000,
        size: 5,
        action: b'C',
        side: b'A',
        flags: 0,
        depth: 10,
        ts_recv: 1658441891000000000,
        ts_in_delta: 22000,
        sequence: 1170355,
        booklevel,
    };
    let bytes = rec.to_bytes();
    assert_eq!(bytes.len(), 368);
    assert_eq!(bytes[1], 10);
    let back: Mbp10Msg = transmute_record_bytes(bytes.as_slice()).unwrap();
    assert_eq!(back, rec);
    // The trade record shares the payload prefix but not the tag.
    assert!(transmute_record_bytes::<TradeMsg>(bytes.as_slice()).is_none());
}

#[test]
fn test_status_round_trip() {
    let mut group = [0u8; 21];
    group[0] = b'E';
    group[1] = b'S';
    let rec = StatusMsg {
        hd: header(STATUS_MSG_TYPE_ID, 12),
        ts_recv: 1658441891000000000,
        group,
        trading_status: 3,
        halt_reason: 4,
        trading_event: 6,
    };
    let bytes = rec.to_bytes();
    assert_eq!(bytes.len(), 48);
    assert_eq!(bytes[1], STATUS_MSG_TYPE_ID);
    let back: StatusMsg = transmute_record_bytes(bytes.as_slice()).unwrap();
    assert_eq!(back, rec);
    assert_eq!(back.group_bytes(), vec![b'E', b'S']);
}

#[test]
fn test_gateway_error_round_trip() {
    let mut err = [0u8; 64];
    for (i, b) in b"internal error".iter().enumerate() {
        err[i] = *b;
    }
    let rec = GatewayErrorMsg { hd: header(GATEWAY_ERROR_MSG_TYPE_ID, 20), err };
    let bytes = rec.to_bytes();
    assert_eq!(bytes.len(), 80);
    assert_eq!(bytes[1], GATEWAY_ERROR_MSG_TYPE_ID);
    let back: GatewayErrorMsg = transmute_record_bytes(bytes.as_slice()).unwrap();
    assert_eq!(back, rec);
    assert_eq!(back.err_bytes(), b"internal error".to_vec());
}

#[test]
fn test_symbol_mapping_round_trip() {
    let mut stype_in_symbol = [0u8; 22];
    stype_in_symbol[..4].copy_from_slice(b"ESM2");
    let mut stype_out_symbol = [0u8; 22];
    stype_out_symbol[..4].copy_from_slice(b"3403");
    let rec = SymbolMappingMsg {
        hd: header(SYMBOL_MAPPING_MSG_TYPE_ID, 20),
        stype_in_symbol,
        stype_out_symbol,
        _dummy: [0; 4],
        start_ts: 1658441851000000000,
        end_ts: 1658528251000000000,
    };
    let bytes = rec.to_bytes();
    assert_eq!(bytes.len(), 80);
    assert_eq!(bytes[1], SYMBOL_MAPPING_MSG_TYPE_ID);
    let back: SymbolMappingMsg = transmute_record_bytes(bytes.as_slice()).unwrap();
    assert_eq!(back, rec);
    assert_eq!(back.stype_in_symbol_bytes(), b"ESM2".to_vec());
    assert_eq!(back.stype_out_symbol_bytes(), b"3403".to_vec());
}

#[test]
fn test_imbalance_round_trip() {
    let rec = Imbalance {
        hd: header(IMBALANCE_TYPE_ID, 28),
        ts_recv: 1658441891000000000,
        ref_price: 372025000000000,
        auction_time: 1658441900000000000,
        cont_book_clr_price: 372026000000000,
        auct_interest_clr_price: 372027000000000,
        ssr_filling_price: -1,
        ind_match_price: 372028000000000,
        upper_collar: 372035000000000,
        lower_collar: 372015000000000,
        paired_qty: 100,
        total_imbalance_qty: 250,
        market_imbalance_qty: 200,
        auction_type: b'O',
        side: b'B',
        auction_status: 1,
        freeze_status: 0,
        num_extensions: 2,
        unpaired_qty: 17,
        unpaired_side: b'A',
        significant_imbalance: b'Y',
        _dummy: [0; 4],
    };
    let bytes = rec.to_bytes();
    assert_eq!(bytes.len(), 112);
    assert_eq!(bytes[1], IMBALANCE_TYPE_ID);
    let back: Imbalance = transmute_record_bytes(bytes.as_slice()).unwrap();
    assert_eq!(back, rec);
}

#[test]
fn test_instrument_def_round_trip() {
    let mut currency = [0u8; 4];
    currency[..3].copy_from_slice(b"USD");
    let mut symbol = [0u8; 22];
    symbol[..4].copy_from_slice(b"ESM2");
    let mut exchange = [0u8; 5];
    exchange[..4].copy_from_slice(b"XCME");
    let rec = InstrumentDefMsg {
        hd: header(INSTRUMENT_DEF_MSG_TYPE_ID, 90),
        ts_recv: 1658441891000000000,
        min_price_increment: 250000000,
        display_factor: 1000000000,
        expiration: 1687464000000000000,
        activation: 1614834000000000000,
        high_limit_price: 400000000000000,
        low_limit_price: 350000000000000,
        max_price_variation: 10000000000,
        trading_reference_price: 372025000000000,
        unit_of_measure_qty: 50000000000,
        min_price_increment_amount: i64::MIN,
        price_ratio: 12500000,
        inst_attrib_value: 7,
        underlying_id: 0,
        cleared_volume: -1,
        market_depth_implied: -2,
        market_depth: 10,
        market_segment_id: 54,
        max_trade_vol: 3000,
        min_lot_size: 1,
        min_lot_size_block: -1,
        min_lot_size_round_lot: 1,
        min_trade_vol: 1,
        open_interest_qty: -5,
        contract_multiplier: 50,
        decay_quantity: 0,
        original_contract_size: 50,
        related_security_id: 0,
        trading_reference_date: 44000,
        appl_id: -30000,
        maturity_year: 2022,
        decay_start_date: 0,
        channel_id: 13,
        currency,
        settl_currency: currency,
        secsubtype: [0; 6],
        symbol,
        group: [0; 21],
        exchange,
        asset: [0; 7],
        cfi: [0; 7],
        security_type: [0; 7],
        unit_of_measure: [0; 31],
        underlying: [0; 21],
        related: [0; 21],
        match_algorithm: b'F',
        md_security_trading_status: 2,
        main_fraction: 4,
        price_display_format: 8,
        settl_price_type: 9,
        sub_fraction: 23,
        underlying_product: 10,
        security_update_action: b'A',
        maturity_month: 6,
        maturity_day: 17,
        maturity_week: 0,
        user_defined_instrument: b'N',
        contract_multiplier_unit: -1,
        flow_schedule_type: -128,
        tick_rule: 0,
        _dummy: [0; 3],
    };
    let bytes = rec.to_bytes();
    assert_eq!(bytes.len(), 360);
    assert_eq!(bytes[1], INSTRUMENT_DEF_MSG_TYPE_ID);
    let back: InstrumentDefMsg = transmute_record_bytes(bytes.as_slice()).unwrap();
    assert_eq!(back, rec);
    assert_eq!(back.currency_bytes(), b"USD".to_vec());
    assert_eq!(back.symbol_bytes(), b"ESM2".to_vec());
    assert_eq!(back.exchange_bytes(), b"XCME".to_vec());
}

#[test]
fn test_header_round_trip_exact_bytes() {
    let hd = header(0x11, 14);
    let bytes = hd.to_bytes();
    assert_eq!(bytes.len(), 16);
    // The wire layout: length, rtype, then the little-endian fields.
    assert_eq!(bytes[0], 14);
    assert_eq!(bytes[1], 0x11);
    assert_eq!(&bytes[2..4], &12u16.to_le_bytes());
    assert_eq!(&bytes[4..8], &9001u32.to_le_bytes());
    assert_eq!(&bytes[8..16], &1658441851000000000u64.to_le_bytes());
}
