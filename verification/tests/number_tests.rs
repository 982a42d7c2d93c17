use tabledit::number::{char_digit_value, char_is_digit, parse_int};

#[test]
fn parse_int_reads_plain_numbers() {
    assert_eq!(parse_int("0"), Some(0));
    assert_eq!(parse_int("42"), Some(42));
    assert_eq!(parse_int("007"), Some(7));
}

#[test]
fn parse_int_reads_signs() {
    assert_eq!(parse_int("-7"), Some(-7));
    assert_eq!(parse_int("+5"), Some(5));
    assert_eq!(parse_int("-0"), Some(0));
}

#[test]
fn parse_int_refuses_what_is_no_number() {
    assert_eq!(parse_int(""), None);
    assert_eq!(parse_int("+"), None);
    assert_eq!(parse_int("-"), None);
    assert_eq!(parse_int("12a"), None);
    assert_eq!(parse_int("a12"), None);
    assert_eq!(parse_int(" 1"), None);
    assert_eq!(parse_int("1 "), None);
    assert_eq!(parse_int("1_000"), None);
    assert_eq!(parse_int("--1"), None);
    assert_eq!(parse_int("1-"), None);
    assert_eq!(parse_int("1.5"), None);
    assert_eq!(parse_int("١٢"), None);
}

#[test]
fn parse_int_keeps_to_32_bits() {
    assert_eq!(parse_int("2147483647"), Some(i32::MAX));
    assert_eq!(parse_int("2147483648"), None);
    assert_eq!(parse_int("-2147483648"), Some(i32::MIN));
    assert_eq!(parse_int("-2147483649"), None);
    assert_eq!(parse_int("99999999999999999999999999"), None);
    assert_eq!(parse_int("00000000000000000000000001"), Some(1));
}

#[test]
fn parse_int_agrees_with_the_standard_parser() {
    let samples = [
        "", "0", "1", "-1", "+1", "+-1", "12345", "2147483647", "2147483648", "-2147483648",
        "-2147483649", "abc", "1a", "a1", " ", "+", "-", "000", "-000", "4294967296", "1e3",
        "0x10", "९",
    ];
    for s in samples {
        assert_eq!(parse_int(s), s.parse::<i32>().ok(), "input {:?}", s);
    }
}

#[test]
fn digits_are_the_ten_ascii_digits() {
    assert!(char_is_digit('0'));
    assert!(char_is_digit('9'));
    assert!(!char_is_digit('/'));
    assert!(!char_is_digit(':'));
    assert!(!char_is_digit('a'));
    assert!(!char_is_digit('٣'));
    assert_eq!(char_digit_value('0'), 0);
    assert_eq!(char_digit_value('7'), 7);
}
