use databento_defs::codec::{c_str_bytes, c_str_len};

#[test]
fn test_c_str_len_stops_at_first_nul() {
    assert_eq!(c_str_len(&[]), 0);
    assert_eq!(c_str_len(&[0, b'x', b'y']), 0);
    assert_eq!(c_str_len(&[b'a', b'b', 0, b'z']), 2);
    assert_eq!(c_str_len(&[b'a', b'b', b'c']), 3);
}

#[test]
fn test_c_str_bytes_ignores_bytes_after_nul() {
    // Bytes after the first NUL are unspecified and must not be trusted.
    assert_eq!(c_str_bytes(&[b'E', b'S', 0, b'!', b'?']), vec![b'E', b'S']);
    assert_eq!(c_str_bytes(&[0, b'!', b'?']), Vec::<u8>::new());
    assert_eq!(c_str_bytes(&[b'n', b'o', b'n', b'u', b'l']), b"nonul".to_vec());
}
