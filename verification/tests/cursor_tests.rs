use blob_fetcher::cursor::format_height;
use blob_fetcher::cursor::parse_height;
use blob_fetcher::CursorError;

#[test]
fn parse_plain_decimal() {
    assert_eq!(parse_height("1"), Ok(1));
    assert_eq!(parse_height("123"), Ok(123));
    assert_eq!(parse_height("0"), Ok(0));
}

#[test]
fn parse_accepts_leading_plus() {
    assert_eq!(parse_height("+7"), Ok(7));
}

#[test]
fn parse_empty_is_corrupt() {
    assert_eq!(parse_height(""), Err(CursorError::CorruptCursor));
    assert_eq!(parse_height("+"), Err(CursorError::CorruptCursor));
}

#[test]
fn parse_non_digits_are_corrupt() {
    assert_eq!(parse_height("12a"), Err(CursorError::CorruptCursor));
    assert_eq!(parse_height("-3"), Err(CursorError::CorruptCursor));
    assert_eq!(parse_height(" 1"), Err(CursorError::CorruptCursor));
    assert_eq!(parse_height("1 "), Err(CursorError::CorruptCursor));
    assert_eq!(parse_height("1.0"), Err(CursorError::CorruptCursor));
}

#[test]
fn parse_largest_height() {
    assert_eq!(parse_height("18446744073709551615"), Ok(u64::MAX));
}

#[test]
fn parse_overflow_is_corrupt() {
    assert_eq!(parse_height("18446744073709551616"), Err(CursorError::CorruptCursor));
    assert_eq!(
        parse_height("99999999999999999999999999"),
        Err(CursorError::CorruptCursor)
    );
}

#[test]
fn format_small_heights() {
    assert_eq!(format_height(0), "0");
    assert_eq!(format_height(7), "7");
    assert_eq!(format_height(10), "10");
    assert_eq!(format_height(12345), "12345");
}

#[test]
fn format_largest_height() {
    assert_eq!(format_height(u64::MAX), "18446744073709551615");
}

#[test]
fn format_then_parse_round_trip() {
    for h in [0u64, 1, 9, 10, 99, 100, 4096, 1_000_000_007, u64::MAX] {
        assert_eq!(parse_height(&format_height(h)), Ok(h));
    }
}
