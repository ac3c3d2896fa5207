use nano::decimal::{parse_u64, parse_u64_from, render};

#[test]
fn render_writes_plain_decimal() {
    assert_eq!(render(0), "0");
    assert_eq!(render(7), "7");
    assert_eq!(render(10), "10");
    assert_eq!(render(1234567), "1234567");
    assert_eq!(render(99217900254035968), "99217900254035968");
    assert_eq!(render(u64::MAX), "18446744073709551615");
}

#[test]
fn parse_reads_digits_with_an_optional_plus() {
    assert_eq!(parse_u64("0"), Some(0));
    assert_eq!(parse_u64("42"), Some(42));
    assert_eq!(parse_u64("+42"), Some(42));
    assert_eq!(parse_u64("007"), Some(7));
    assert_eq!(parse_u64("18446744073709551615"), Some(u64::MAX));
}

#[test]
fn parse_refuses_what_is_no_number() {
    assert_eq!(parse_u64(""), None);
    assert_eq!(parse_u64("+"), None);
    assert_eq!(parse_u64("-1"), None);
    assert_eq!(parse_u64("12a"), None);
    assert_eq!(parse_u64(" 12"), None);
    assert_eq!(parse_u64("1_000"), None);
    assert_eq!(parse_u64("++1"), None);
    assert_eq!(parse_u64("\u{0661}\u{0662}"), None);
}

#[test]
fn parse_refuses_what_does_not_fit() {
    assert_eq!(parse_u64("18446744073709551616"), None);
    assert_eq!(parse_u64("18446744073709551620"), None);
    assert_eq!(parse_u64("99999999999999999999999"), None);
    assert_eq!(parse_u64("184467440737095516150"), None);
}

#[test]
fn parse_agrees_with_the_standard_parser() {
    for text in ["", "+", "0", "+0", "00", "123", "+123", "-0", "18446744073709551615", "18446744073709551616", "1 ", "٣"] {
        assert_eq!(parse_u64(text), text.parse::<u64>().ok(), "{text:?}");
    }
}

#[test]
fn parse_from_skips_a_prefix_counted_in_characters() {
    assert_eq!(parse_u64_from("verify-y-123", 9), Some(123));
    assert_eq!(parse_u64_from("é42", 1), Some(42));
    assert_eq!(parse_u64_from("abc", 3), None);
    assert_eq!(parse_u64_from("123", 4), None);
    assert_eq!(parse_u64_from("", 1), None);
    assert_eq!(parse_u64_from("123", 0), Some(123));
}

#[test]
fn render_and_parse_round_trip() {
    for n in [0u64, 1, 9, 10, 99, 100, 12345, u64::MAX - 1, u64::MAX] {
        assert_eq!(parse_u64(&render(n)), Some(n));
        assert_eq!(render(n), n.to_string());
    }
}
