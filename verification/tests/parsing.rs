use ibc_handshake::hexparse::decode_hex;
use ibc_handshake::numparse::{parse_u32, parse_u64};

#[test]
fn decode_hex_known_bytes() {
    assert_eq!(decode_hex("deadbeef"), Some(vec![0xde, 0xad, 0xbe, 0xef]));
}

#[test]
fn decode_hex_mixed_case() {
    assert_eq!(decode_hex("DeadBEEF00"), Some(vec![0xde, 0xad, 0xbe, 0xef, 0x00]));
}

#[test]
fn decode_hex_empty_is_no_bytes() {
    assert_eq!(decode_hex(""), Some(vec![]));
}

#[test]
fn decode_hex_rejects_odd_length() {
    assert_eq!(decode_hex("abc"), None);
}

#[test]
fn decode_hex_rejects_non_hex_character() {
    assert_eq!(decode_hex("zz"), None);
    assert_eq!(decode_hex("0g"), None);
}

#[test]
fn decode_hex_matches_reference_decoder() {
    let samples = [
        "",
        "00",
        "ff",
        "0123456789abcdef",
        "ABCDEF",
        "deadbeef",
        "0cda3f47ef3c4906693b170ef650eb968c5f4b2c",
    ];
    for s in samples {
        assert_eq!(decode_hex(s), Some(hex::decode(s).unwrap()), "sample {s}");
    }
    assert!(decode_hex("xy").is_none());
    assert!(hex::decode("xy").is_err());
}

#[test]
fn parse_u64_known_values() {
    assert_eq!(parse_u64("1"), Some(1));
    assert_eq!(parse_u64("100"), Some(100));
    assert_eq!(parse_u64("0"), Some(0));
    assert_eq!(parse_u64("007"), Some(7));
    assert_eq!(parse_u64("18446744073709551615"), Some(u64::MAX));
}

#[test]
fn parse_u64_rejects_overflow() {
    assert_eq!(parse_u64("18446744073709551616"), None);
    assert_eq!(parse_u64("99999999999999999999999"), None);
}

#[test]
fn parse_u64_rejects_garbage() {
    assert_eq!(parse_u64(""), None);
    assert_eq!(parse_u64("12a"), None);
    assert_eq!(parse_u64("-1"), None);
    assert_eq!(parse_u64(" 1"), None);
}

#[test]
fn parse_u32_known_values() {
    assert_eq!(parse_u32("100"), Some(100));
    assert_eq!(parse_u32("4294967295"), Some(u32::MAX));
}

#[test]
fn parse_u32_rejects_out_of_range() {
    assert_eq!(parse_u32("4294967296"), None);
    assert_eq!(parse_u32(""), None);
}
