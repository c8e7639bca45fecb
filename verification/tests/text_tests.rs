use epoch_image::text::decimal_string;
use epoch_image::text::parse_i64;
use epoch_image::text::str_eq;

#[test]
fn parses_plain_decimals() {
    assert_eq!(parse_i64("0"), Some(0));
    assert_eq!(parse_i64("42"), Some(42));
    assert_eq!(parse_i64("1700000000"), Some(1700000000));
    assert_eq!(parse_i64("007"), Some(7));
}

#[test]
fn parses_signed_decimals() {
    assert_eq!(parse_i64("-42"), Some(-42));
    assert_eq!(parse_i64("+7"), Some(7));
    assert_eq!(parse_i64("-0"), Some(0));
}

#[test]
fn rejects_malformed_input() {
    assert_eq!(parse_i64(""), None);
    assert_eq!(parse_i64("-"), None);
    assert_eq!(parse_i64("+"), None);
    assert_eq!(parse_i64("abc"), None);
    assert_eq!(parse_i64("12x"), None);
    assert_eq!(parse_i64(" 12"), None);
    assert_eq!(parse_i64("--5"), None);
}

#[test]
fn honors_the_i64_range() {
    assert_eq!(parse_i64("9223372036854775807"), Some(i64::MAX));
    assert_eq!(parse_i64("9223372036854775808"), None);
    assert_eq!(parse_i64("-9223372036854775808"), Some(i64::MIN));
    assert_eq!(parse_i64("-9223372036854775809"), None);
    assert_eq!(parse_i64("99999999999999999999"), None);
}

#[test]
fn formats_decimals() {
    assert_eq!(decimal_string(0), "0");
    assert_eq!(decimal_string(7), "7");
    assert_eq!(decimal_string(1700000000), "1700000000");
    assert_eq!(decimal_string(-42), "-42");
    assert_eq!(decimal_string(i64::MAX), "9223372036854775807");
    assert_eq!(decimal_string(i64::MIN), "-9223372036854775808");
}

#[test]
fn formatting_then_parsing_returns_the_value() {
    for n in [0i64, 1, -1, 320, 1700000000, i64::MAX, i64::MIN] {
        assert_eq!(parse_i64(&decimal_string(n)), Some(n));
    }
}

#[test]
fn compares_strings_by_content() {
    assert!(str_eq("epoch", "epoch"));
    assert!(!str_eq("epoch", "epoc"));
    assert!(!str_eq("epoch", "latest"));
    assert!(str_eq("", ""));
}
