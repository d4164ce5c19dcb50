use blob_fetcher::hexcode::hex_decode;
use blob_fetcher::hexcode::hex_encode;

#[test]
fn encode_bytes_lowercase() {
    let b: Vec<u8> = vec![0xde, 0xad, 0xbe, 0xef];
    assert_eq!(hex_encode(&b), "deadbeef");
}

#[test]
fn encode_empty() {
    let b: Vec<u8> = vec![];
    assert_eq!(hex_encode(&b), "");
}

#[test]
fn encode_keeps_leading_zero_nibbles() {
    let b: Vec<u8> = vec![0x00, 0x0f, 0xa0];
    assert_eq!(hex_encode(&b), "000fa0");
}

#[test]
fn decode_lowercase() {
    assert_eq!(hex_decode("deadbeef"), Some(vec![0xde, 0xad, 0xbe, 0xef]));
}

#[test]
fn decode_uppercase_and_mixed() {
    assert_eq!(hex_decode("DEADBEEF"), Some(vec![0xde, 0xad, 0xbe, 0xef]));
    assert_eq!(hex_decode("DeAdBeEf"), Some(vec![0xde, 0xad, 0xbe, 0xef]));
}

#[test]
fn decode_empty() {
    assert_eq!(hex_decode(""), Some(vec![]));
}

#[test]
fn decode_odd_length_fails() {
    assert_eq!(hex_decode("abc"), None);
}

#[test]
fn decode_non_hex_fails() {
    assert_eq!(hex_decode("zz"), None);
    assert_eq!(hex_decode("0x12"), None);
}

#[test]
fn encode_decode_round_trip() {
    let b: Vec<u8> = (0u8..=255).collect();
    let s = hex_encode(&b);
    assert_eq!(hex_decode(&s), Some(b));
}
