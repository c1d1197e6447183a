use feedcfg::numtext::parse_i64_text;

#[test]
fn plain_decimal_texts_parse() {
    assert_eq!(parse_i64_text("0"), Some(0));
    assert_eq!(parse_i64_text("12345"), Some(12345));
    assert_eq!(parse_i64_text("+7"), Some(7));
    assert_eq!(parse_i64_text("-0"), Some(0));
    assert_eq!(parse_i64_text("-1001234"), Some(-1001234));
    assert_eq!(parse_i64_text("007"), Some(7));
}

#[test]
fn range_bounds_are_exact() {
    assert_eq!(parse_i64_text("9223372036854775807"), Some(i64::MAX));
    assert_eq!(parse_i64_text("9223372036854775808"), None);
    assert_eq!(parse_i64_text("-9223372036854775808"), Some(i64::MIN));
    assert_eq!(parse_i64_text("-9223372036854775809"), None);
    assert_eq!(parse_i64_text("92233720368547758080000"), None);
}

#[test]
fn malformed_texts_do_not_parse() {
    assert_eq!(parse_i64_text(""), None);
    assert_eq!(parse_i64_text("-"), None);
    assert_eq!(parse_i64_text("+"), None);
    assert_eq!(parse_i64_text(" 1"), None);
    assert_eq!(parse_i64_text("1 "), None);
    assert_eq!(parse_i64_text("1.5"), None);
    assert_eq!(parse_i64_text("12a"), None);
    assert_eq!(parse_i64_text("--1"), None);
    assert_eq!(parse_i64_text("@channel"), None);
}

#[test]
fn agrees_with_the_standard_parser() {
    for text in [
        "0", "1", "-1", "+42", "9223372036854775807", "-9223372036854775808",
        "9223372036854775808", "-9223372036854775809", "00012", "x", "", "-", "1_000",
    ] {
        assert_eq!(parse_i64_text(text), text.parse::<i64>().ok(), "on {:?}", text);
    }
}
