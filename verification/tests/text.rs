use hurl_cli::text::{parse_decimal, parse_u64, parse_usize, same_text};

#[test]
fn decimal_digits_are_read() {
    assert_eq!(parse_decimal("0", 100), Some(0));
    assert_eq!(parse_decimal("42", 100), Some(42));
    assert_eq!(parse_decimal("00012", 100), Some(12));
    assert_eq!(parse_decimal("100", 100), Some(100));
    assert_eq!(parse_u64("18446744073709551615"), Some(u64::MAX));
    assert_eq!(parse_usize("50"), Some(50));
}

#[test]
fn a_plus_sign_may_lead() {
    assert_eq!(parse_decimal("+5", 100), Some(5));
    assert_eq!(parse_decimal("+", 100), None);
    assert_eq!(parse_decimal("++5", 100), None);
    assert_eq!(parse_decimal("5+", 100), None);
}

#[test]
fn other_texts_are_no_numbers() {
    assert_eq!(parse_decimal("", 100), None);
    assert_eq!(parse_decimal("-1", 100), None);
    assert_eq!(parse_decimal("-0", 100), None);
    assert_eq!(parse_decimal("1 ", 100), None);
    assert_eq!(parse_decimal(" 1", 100), None);
    assert_eq!(parse_decimal("1_000", 100), None);
    assert_eq!(parse_decimal("0x10", 100), None);
    assert_eq!(parse_decimal("١٢", 100), None);
    assert_eq!(parse_decimal("ten", 100), None);
}

#[test]
fn numbers_above_the_limit_are_refused() {
    assert_eq!(parse_decimal("101", 100), None);
    assert_eq!(parse_decimal("1000", 100), None);
    assert_eq!(parse_u64("18446744073709551616"), None);
    assert_eq!(parse_u64("99999999999999999999999999999999"), None);
    assert_eq!(parse_usize("18446744073709551616"), None);
}

#[test]
fn reading_agrees_with_the_standard_library() {
    for s in ["0", "7", "+7", "-7", "", "+", "12a", "0012", "18446744073709551615", "18446744073709551616"] {
        assert_eq!(parse_u64(s), s.parse::<u64>().ok());
        assert_eq!(parse_usize(s), s.parse::<usize>().ok());
    }
}

#[test]
fn same_text_compares_characters() {
    assert!(same_text("-1", "-1"));
    assert!(!same_text("-1", "-10"));
    assert!(same_text("", ""));
}
