use databento_defs::enums::{Action, Compression, Encoding, SType, Schema, Side};
use databento_defs::Error;

#[test]
fn test_side_codes() {
    assert_eq!(Side::Ask.as_char(), 'A');
    assert_eq!(Side::Bid.as_char(), 'B');
    assert_eq!(Side::Ask.as_byte(), b'A');
    assert_eq!(Side::Bid.as_byte(), b'B');
}

#[test]
fn test_action_codes() {
    assert_eq!(Action::Modify.as_char(), 'M');
    assert_eq!(Action::Trade.as_char(), 'T');
    assert_eq!(Action::Cancel.as_char(), 'C');
    assert_eq!(Action::Add.as_char(), 'A');
    assert_eq!(Action::Status.as_char(), 'S');
    assert_eq!(Action::Update.as_char(), 'U');
    assert_eq!(Action::Modify.as_byte(), b'M');
    assert_eq!(Action::Update.as_byte(), b'U');
}

#[test]
fn test_stype_strings_and_codes() {
    assert_eq!(SType::Native.as_str(), "native");
    assert_eq!(SType::Smart.as_str(), "smart");
    assert_eq!(SType::ProductId.as_str(), "product_id");
    assert_eq!(SType::ProductId.as_code(), 0);
    assert_eq!(SType::Native.as_code(), 1);
    assert_eq!(SType::Smart.as_code(), 2);
    assert_eq!(SType::try_from_code(0), Some(SType::ProductId));
    assert_eq!(SType::try_from_code(1), Some(SType::Native));
    assert_eq!(SType::try_from_code(2), Some(SType::Smart));
    assert_eq!(SType::try_from_code(3), None);
    assert_eq!(SType::try_from_code(255), None);
}

#[test]
fn test_schema_strings_and_codes() {
    assert_eq!(Schema::Mbo.as_str(), "mbo");
    assert_eq!(Schema::Mbp1.as_str(), "mbp-1");
    assert_eq!(Schema::Mbp10.as_str(), "mbp-10");
    assert_eq!(Schema::Tbbo.as_str(), "tbbo");
    assert_eq!(Schema::Trades.as_str(), "trades");
    assert_eq!(Schema::Ohlcv1S.as_str(), "ohlcv-1s");
    assert_eq!(Schema::Ohlcv1M.as_str(), "ohlcv-1m");
    assert_eq!(Schema::Ohlcv1H.as_str(), "ohlcv-1h");
    assert_eq!(Schema::Ohlcv1D.as_str(), "ohlcv-1d");
    assert_eq!(Schema::Definition.as_str(), "definition");
    assert_eq!(Schema::Statistics.as_str(), "statistics");
    assert_eq!(Schema::Status.as_str(), "status");
    let mut code: u16 = 0;
    while code < 12 {
        let schema = Schema::try_from_code(code).unwrap();
        assert_eq!(schema.as_code(), code);
        code += 1;
    }
    assert_eq!(Schema::try_from_code(12), None);
}

#[test]
fn test_encoding_strings_and_codes() {
    assert_eq!(Encoding::Dbz.as_str(), "dbz");
    assert_eq!(Encoding::Csv.as_str(), "csv");
    assert_eq!(Encoding::Json.as_str(), "json");
    assert_eq!(Encoding::try_from_code(0), Some(Encoding::Dbz));
    assert_eq!(Encoding::try_from_code(1), Some(Encoding::Csv));
    assert_eq!(Encoding::try_from_code(2), Some(Encoding::Json));
    assert_eq!(Encoding::try_from_code(9), None);
}

#[test]
fn test_compression_codes() {
    assert_eq!(Compression::Uncompressed.as_code(), 0);
    assert_eq!(Compression::ZStd.as_code(), 1);
    assert_eq!(Compression::try_from_code(0), Some(Compression::Uncompressed));
    assert_eq!(Compression::try_from_code(1), Some(Compression::ZStd));
    assert_eq!(Compression::try_from_code(2), None);
}

#[test]
fn test_error_messages() {
    assert_eq!(
        Error::NullPointer.message().as_str(),
        "Received unexpected NULL from the FFI"
    );
    assert_eq!(
        Error::TypeConversion("OhlcvMsg").message().as_str(),
        "Type conversion error: OhlcvMsg"
    );
    assert_eq!(
        Error::FileDoesNotExist(String::from("/tmp/a.dbz")).message().as_str(),
        "Path doesn't exist: /tmp/a.dbz"
    );
}
