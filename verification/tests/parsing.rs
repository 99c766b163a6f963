use session_core::digits::{parse_i64, u64_to_string};

#[test]
fn parses_plain_numbers() {
    assert_eq!(parse_i64("0"), Some(0));
    assert_eq!(parse_i64("200"), Some(200));
    assert_eq!(parse_i64("007"), Some(7));
}

#[test]
fn parses_signs() {
    assert_eq!(parse_i64("+5"), Some(5));
    assert_eq!(parse_i64("-7"), Some(-7));
    assert_eq!(parse_i64("-0"), Some(0));
}

#[test]
fn parses_extremes() {
    assert_eq!(parse_i64("9223372036854775807"), Some(i64::MAX));
    assert_eq!(parse_i64("-9223372036854775808"), Some(i64::MIN));
    assert_eq!(parse_i64("9223372036854775808"), None);
    assert_eq!(parse_i64("-9223372036854775809"), None);
    assert_eq!(parse_i64("99999999999999999999999999999999"), None);
}

#[test]
fn rejects_non_numbers() {
    assert_eq!(parse_i64(""), None);
    assert_eq!(parse_i64("-"), None);
    assert_eq!(parse_i64("+"), None);
    assert_eq!(parse_i64("abc"), None);
    assert_eq!(parse_i64("12a"), None);
    assert_eq!(parse_i64(" 12"), None);
    assert_eq!(parse_i64("12 "), None);
    assert_eq!(parse_i64("1.5"), None);
    assert_eq!(parse_i64("--5"), None);
    assert_eq!(parse_i64("+-5"), None);
}

#[test]
fn agrees_with_the_standard_parser() {
    let cases = [
        "", "0", "007", "+5", "-7", "200", "12a", " 12", "1.5", "-",
        "9223372036854775807", "9223372036854775808", "-9223372036854775808",
        "-9223372036854775809", "99999999999999999999999999999999",
    ];
    for text in cases {
        assert_eq!(parse_i64(text), text.parse::<i64>().ok(), "on {:?}", text);
    }
}

#[test]
fn writes_decimals() {
    assert_eq!(u64_to_string(0), "0");
    assert_eq!(u64_to_string(7), "7");
    assert_eq!(u64_to_string(100), "100");
    assert_eq!(u64_to_string(u64::MAX), "18446744073709551615");
}
