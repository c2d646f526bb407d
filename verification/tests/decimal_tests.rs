use elementipelago::archipelago::decimal::{decimal_text, digits_text, parse_isize, parse_usize};

#[test]
fn decimal_text_of_known_numbers() {
    assert_eq!(decimal_text(0), "0");
    assert_eq!(decimal_text(7), "7");
    assert_eq!(decimal_text(10), "10");
    assert_eq!(decimal_text(-1), "-1");
    assert_eq!(decimal_text(1234567890), "1234567890");
    assert_eq!(decimal_text(isize::MAX), isize::MAX.to_string());
    assert_eq!(decimal_text(isize::MIN), isize::MIN.to_string());
    assert_eq!(digits_text(u64::MAX), "18446744073709551615");
    assert_eq!(digits_text(0), "0");
}

#[test]
fn parse_isize_reads_what_decimal_text_writes() {
    for x in [0, 1, -1, 9, 10, -10, 99, 100, 12345, -98765, isize::MAX, isize::MIN, isize::MAX - 1, isize::MIN + 1] {
        assert_eq!(parse_isize(&decimal_text(x)), Some(x));
    }
}

#[test]
fn parse_isize_refuses_what_is_no_number() {
    for bad in ["", "-", "+1", " 1", "1 ", "1.0", "1e3", "--1", "1-", "0x10", "١٢"] {
        assert_eq!(parse_isize(bad), None, "{:?}", bad);
    }
    assert_eq!(parse_isize("9223372036854775808"), None);
    assert_eq!(parse_isize("-9223372036854775809"), None);
    assert_eq!(parse_isize("99999999999999999999999999"), None);
    assert_eq!(parse_isize("007"), Some(7));
    assert_eq!(parse_isize("-0"), Some(0));
    assert_eq!(parse_isize("-9223372036854775808"), Some(isize::MIN));
}

#[test]
fn parse_usize_reads_digits_only() {
    assert_eq!(parse_usize("0"), Some(0));
    assert_eq!(parse_usize("42"), Some(42));
    assert_eq!(parse_usize("18446744073709551615"), Some(usize::MAX));
    assert_eq!(parse_usize("18446744073709551616"), None);
    assert_eq!(parse_usize(""), None);
    assert_eq!(parse_usize("-1"), None);
    assert_eq!(parse_usize("4 2"), None);
}
