use vstd::prelude::*;

verus! {

/// A character that may appear in a hex string (both cases accepted).
pub open spec fn is_hex_digit(c: char) -> bool {
    ('0' as int <= c as int && c as int <= '9' as int)
        || ('a' as int <= c as int && c as int <= 'f' as int)
        || ('A' as int <= c as int && c as int <= 'F' as int)
}

/// Numeric value of a hex digit; 16 for any other character.
pub open spec fn hex_val(c: char) -> int {
    if '0' as int <= c as int && c as int <= '9' as int {
        c as int - '0' as int
    } else if 'a' as int <= c as int && c as int <= 'f' as int {
        10 + c as int - 'a' as int
    } else if 'A' as int <= c as int && c as int <= 'F' as int {
        10 + c as int - 'A' as int
    } else {
        16
    }
}

/// Lowercase hex digit for a value in 0..16.
pub open spec fn hex_char_of(n: int) -> char {
    if n == 0 { '0' }
    else if n == 1 { '1' }
    else if n == 2 { '2' }
    else if n == 3 { '3' }
    else if n == 4 { '4' }
    else if n == 5 { '5' }
    else if n == 6 { '6' }
    else if n == 7 { '7' }
    else if n == 8 { '8' }
    else if n == 9 { '9' }
    else if n == 10 { 'a' }
    else if n == 11 { 'b' }
    else if n == 12 { 'c' }
    else if n == 13 { 'd' }
    else if n == 14 { 'e' }
    else { 'f' }
}

/// Lowercase hex encoding: two digits per byte, high nibble first.
pub open spec fn hex_encode_spec(b: Seq<u8>) -> Seq<char> {
    Seq::new(
        b.len() * 2,
        |i: int| if i % 2 == 0 {
            hex_char_of(b[i / 2] as int / 16)
        } else {
            hex_char_of(b[i / 2] as int % 16)
        },
    )
}

pub open spec fn all_hex_digits(s: Seq<char>) -> bool {
    forall|i: int| 0 <= i < s.len() ==> is_hex_digit(#[trigger] s[i])
}

/// A string decodes exactly when it has even length and only hex digits.
pub open spec fn hex_decode_ok(s: Seq<char>) -> bool {
    s.len() % 2 == 0 && all_hex_digits(s)
}

/// Hex decoding: each pair of digits yields one byte, high nibble first.
pub open spec fn hex_decode_spec(s: Seq<char>) -> Option<Seq<u8>> {
    if hex_decode_ok(s) {
        Some(Seq::new(s.len() / 2, |i: int| (hex_val(s[2 * i]) * 16 + hex_val(s[2 * i + 1])) as u8))
    } else {
        None
    }
}

/// Relies on hex::encode: encodes every byte as two lowercase hex digits,
/// high nibble first.
#[verifier::external_body]
pub fn hex_encode(b: &Vec<u8>) -> (r: String)
    ensures
        r@ == hex_encode_spec(b@),
{
    hex::encode(b)
}

/// Relies on hex::decode: succeeds exactly on even-length strings of hex
/// digits (either case), pairing digits into bytes, high nibble first.
#[verifier::external_body]
pub fn hex_decode(s: &str) -> (r: Option<Vec<u8>>)
    ensures
        r is Some <==> hex_decode_spec(s@) is Some,
        r is Some ==> r->0@ == hex_decode_spec(s@)->0,
{
    hex::decode(s).ok()
}

} // verus!
