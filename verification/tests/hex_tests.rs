use evmbench::hex::{decode_code, decode_hex, hex_digit, HexError};

#[test]
fn decodes_plain_hex() {
    let r = decode_hex("600160010100").unwrap();
    assert_eq!(r, vec![0x60, 0x01, 0x60, 0x01, 0x01, 0x00]);
}

#[test]
fn decodes_prefixed_code() {
    let r = decode_code("0x600160010100").unwrap();
    assert_eq!(r, vec![0x60, 0x01, 0x60, 0x01, 0x01, 0x00]);
}

#[test]
fn decodes_empty_string() {
    assert_eq!(decode_hex("").unwrap(), Vec::<u8>::new());
    assert_eq!(decode_code("0x").unwrap(), Vec::<u8>::new());
}

#[test]
fn decodes_upper_and_lower_case() {
    assert_eq!(decode_hex("aAfF09").unwrap(), vec![0xaa, 0xff, 0x09]);
}

#[test]
fn rejects_non_hex_characters() {
    assert_eq!(decode_hex("zz"), Err(HexError::InvalidDigit));
    assert_eq!(decode_code("0xzz"), Err(HexError::InvalidDigit));
    assert_eq!(decode_code("60g1"), Err(HexError::InvalidDigit));
}

#[test]
fn rejects_odd_length() {
    assert_eq!(decode_hex("abc"), Err(HexError::OddLength));
    assert_eq!(decode_code("0xabc"), Err(HexError::OddLength));
}

#[test]
fn invalid_digit_reported_ahead_of_odd_length() {
    assert_eq!(decode_hex("zzz"), Err(HexError::InvalidDigit));
}

#[test]
fn prefix_is_stripped_only_at_the_front() {
    // An `0x` in the middle of the text is not a prefix and is invalid hex.
    assert_eq!(decode_code("600x01"), Err(HexError::InvalidDigit));
}

#[test]
fn classifies_hex_digits() {
    assert!(hex_digit('0'));
    assert!(hex_digit('9'));
    assert!(hex_digit('a'));
    assert!(hex_digit('f'));
    assert!(hex_digit('A'));
    assert!(hex_digit('F'));
    assert!(!hex_digit('g'));
    assert!(!hex_digit('x'));
    assert!(!hex_digit(' '));
}
