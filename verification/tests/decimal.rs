use hn_preview::decimal::{parse_i64, push_i64, push_u64};

fn written(n: i64) -> String {
    let mut out = String::new();
    push_i64(&mut out, n);
    out
}

#[test]
fn reads_plain_digits() {
    assert_eq!(parse_i64("0"), Some(0));
    assert_eq!(parse_i64("42"), Some(42));
    assert_eq!(parse_i64("14817557"), Some(14817557));
}

#[test]
fn reads_a_sign() {
    assert_eq!(parse_i64("+7"), Some(7));
    assert_eq!(parse_i64("-7"), Some(-7));
    assert_eq!(parse_i64("-0"), Some(0));
}

#[test]
fn reads_leading_zeros() {
    assert_eq!(parse_i64("007"), Some(7));
    assert_eq!(parse_i64("-00012"), Some(-12));
}

#[test]
fn refuses_what_is_no_number() {
    assert_eq!(parse_i64(""), None);
    assert_eq!(parse_i64("+"), None);
    assert_eq!(parse_i64("-"), None);
    assert_eq!(parse_i64("12a"), None);
    assert_eq!(parse_i64("a12"), None);
    assert_eq!(parse_i64(" 1"), None);
    assert_eq!(parse_i64("1 "), None);
    assert_eq!(parse_i64("--1"), None);
    assert_eq!(parse_i64("+-1"), None);
    assert_eq!(parse_i64("1.0"), None);
    assert_eq!(parse_i64("0x10"), None);
}

#[test]
fn refuses_digits_outside_ascii() {
    assert_eq!(parse_i64("\u{ff11}\u{ff12}"), None);
    assert_eq!(parse_i64("1\u{e9}"), None);
    assert_eq!(parse_i64("\u{2212}1"), None);
}

#[test]
fn reads_the_ends_of_the_range() {
    assert_eq!(parse_i64("9223372036854775807"), Some(i64::MAX));
    assert_eq!(parse_i64("-9223372036854775808"), Some(i64::MIN));
    assert_eq!(parse_i64("+9223372036854775807"), Some(i64::MAX));
}

#[test]
fn refuses_what_does_not_fit() {
    assert_eq!(parse_i64("9223372036854775808"), None);
    assert_eq!(parse_i64("-9223372036854775809"), None);
    assert_eq!(parse_i64("92233720368547758070"), None);
    assert_eq!(parse_i64("99999999999999999999999999999999999999"), None);
    assert_eq!(parse_i64("18446744073709551616"), None);
    assert_eq!(parse_i64("9223372036854775808x"), None);
}

#[test]
fn reads_as_the_standard_library_does() {
    let samples = [
        "", "0", "1", "-1", "+1", "+", "-", "00", "-00", "10", "1_000", "١٢٣", "12 ", "\t12",
        "9223372036854775807", "9223372036854775808", "-9223372036854775808",
        "-9223372036854775809", "000000000000000000000000000001", "+-3", "3-", "3+4",
    ];
    for sample in samples {
        assert_eq!(parse_i64(sample), sample.parse::<i64>().ok(), "reading {:?}", sample);
    }
}

#[test]
fn writes_without_leading_zeros() {
    assert_eq!(written(0), "0");
    assert_eq!(written(7), "7");
    assert_eq!(written(10), "10");
    assert_eq!(written(14817557), "14817557");
}

#[test]
fn writes_a_minus_for_negative_numbers() {
    assert_eq!(written(-1), "-1");
    assert_eq!(written(-120), "-120");
}

#[test]
fn writes_the_ends_of_the_range() {
    assert_eq!(written(i64::MAX), "9223372036854775807");
    assert_eq!(written(i64::MIN), "-9223372036854775808");
    let mut out = String::new();
    push_u64(&mut out, u64::MAX);
    assert_eq!(out, "18446744073709551615");
}

#[test]
fn writing_appends() {
    let mut out = String::from("id=");
    push_i64(&mut out, 5);
    push_u64(&mut out, 60);
    assert_eq!(out, "id=560");
}

#[test]
fn reading_what_was_written_gives_the_number_back() {
    for n in [0, 1, -1, 9, 10, -10, 99, 100, 12345, -98765, i64::MAX, i64::MIN, i64::MAX - 1, i64::MIN + 1] {
        assert_eq!(parse_i64(&written(n)), Some(n));
        assert_eq!(written(n), n.to_string());
    }
}
