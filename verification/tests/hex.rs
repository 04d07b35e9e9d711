use vboot::hex::{decode_hex, encode_hex, DecodeHexError};

#[test]
fn encode_writes_two_lowercase_digits_per_byte() {
    assert_eq!(encode_hex(&[0x00, 0x0f, 0xa5, 0xff]), "000fa5ff");
    assert_eq!(encode_hex(&[0x10]), "10");
    assert_eq!(encode_hex(&[0xde, 0xad, 0xbe, 0xef]), "deadbeef");
}

#[test]
fn encode_of_nothing_is_empty() {
    assert_eq!(encode_hex(&[]), "");
}

#[test]
fn encode_keeps_the_order_of_the_bytes() {
    assert_eq!(encode_hex(&[0x01, 0x23, 0x45, 0x67, 0x89, 0xab, 0xcd, 0xef]), "0123456789abcdef");
}

#[test]
fn decode_reads_digits_of_either_case() {
    assert_eq!(decode_hex("00ff7Fa5"), Ok(vec![0x00, 0xff, 0x7f, 0xa5]));
    assert_eq!(decode_hex("AbCd"), Ok(vec![0xab, 0xcd]));
    assert_eq!(decode_hex("DEADBEEF"), Ok(vec![0xde, 0xad, 0xbe, 0xef]));
}

#[test]
fn decode_of_nothing_is_empty() {
    assert_eq!(decode_hex(""), Ok(vec![]));
}

#[test]
fn decode_rejects_odd_length() {
    assert_eq!(decode_hex("abc"), Err(DecodeHexError::OddLength));
    assert_eq!(decode_hex("0"), Err(DecodeHexError::OddLength));
}

#[test]
fn decode_reports_odd_length_before_a_bad_digit() {
    assert_eq!(decode_hex("g"), Err(DecodeHexError::OddLength));
    assert_eq!(decode_hex("zzz"), Err(DecodeHexError::OddLength));
}

#[test]
fn decode_rejects_a_character_that_is_no_digit() {
    assert_eq!(decode_hex("zz"), Err(DecodeHexError::InvalidDigit));
    assert_eq!(decode_hex("0g"), Err(DecodeHexError::InvalidDigit));
    assert_eq!(decode_hex("g0"), Err(DecodeHexError::InvalidDigit));
    assert_eq!(decode_hex("00 1"), Err(DecodeHexError::InvalidDigit));
    assert_eq!(decode_hex("abcd12x4"), Err(DecodeHexError::InvalidDigit));
}

#[test]
fn decode_rejects_a_sign_in_front_of_a_digit() {
    assert_eq!(decode_hex("+f"), Err(DecodeHexError::InvalidDigit));
    assert_eq!(decode_hex("-1"), Err(DecodeHexError::InvalidDigit));
}

#[test]
fn decode_rejects_characters_next_to_the_digit_ranges() {
    assert_eq!(decode_hex("0/"), Err(DecodeHexError::InvalidDigit));
    assert_eq!(decode_hex("0:"), Err(DecodeHexError::InvalidDigit));
    assert_eq!(decode_hex("0@"), Err(DecodeHexError::InvalidDigit));
    assert_eq!(decode_hex("0G"), Err(DecodeHexError::InvalidDigit));
    assert_eq!(decode_hex("0`"), Err(DecodeHexError::InvalidDigit));
    assert_eq!(decode_hex("0g"), Err(DecodeHexError::InvalidDigit));
}

#[test]
fn decode_counts_characters_outside_ascii() {
    assert_eq!(decode_hex("é"), Err(DecodeHexError::OddLength));
    assert_eq!(decode_hex("éa"), Err(DecodeHexError::InvalidDigit));
    assert_eq!(decode_hex("abé"), Err(DecodeHexError::OddLength));
    assert_eq!(decode_hex("ab１２"), Err(DecodeHexError::InvalidDigit));
}

#[test]
fn decode_undoes_encode_for_every_byte_value() {
    let mut all: Vec<u8> = Vec::new();
    for b in 0..=255u8 {
        all.push(b);
    }
    let text = encode_hex(&all);
    assert_eq!(text.len(), 512);
    assert_eq!(decode_hex(&text), Ok(all));
}

#[test]
fn decode_undoes_encode_on_a_few_sequences() {
    for bytes in [vec![], vec![0u8], vec![255u8, 0, 128], vec![1u8, 2, 3, 4, 5, 6, 7]] {
        assert_eq!(decode_hex(&encode_hex(&bytes)), Ok(bytes));
    }
}

#[test]
fn encode_undoes_decode_on_lowercase_text() {
    for text in ["", "00", "0123456789abcdef", "ffee01", "a0b1c2d3e4f5"] {
        let bytes = decode_hex(text).unwrap();
        assert_eq!(encode_hex(&bytes), text);
    }
}

#[test]
fn encode_after_decode_lowers_uppercase_text() {
    let bytes = decode_hex("ABCDEF").unwrap();
    assert_eq!(encode_hex(&bytes), "abcdef");
}

#[test]
fn decode_error_messages() {
    assert_eq!(
        DecodeHexError::OddLength.message(),
        "input string has an odd number of bytes"
    );
    assert_eq!(DecodeHexError::InvalidDigit.message(), "invalid digit found in string");
}
