use etax::amount::parse_amount;

#[test]
fn test_parse_amount_exact_values() {
    assert_eq!(parse_amount("574.42"), Some(57442));
    assert_eq!(parse_amount("86.16"), Some(8616));
    assert_eq!(parse_amount("100"), Some(10000));
    assert_eq!(parse_amount("0"), Some(0));
    assert_eq!(parse_amount("3.5"), Some(350));
    assert_eq!(parse_amount("0.05"), Some(5));
}

#[test]
fn test_parse_amount_rejects_malformed() {
    assert_eq!(parse_amount(""), None);
    assert_eq!(parse_amount("."), None);
    assert_eq!(parse_amount(".5"), None);
    assert_eq!(parse_amount("12."), None);
    assert_eq!(parse_amount("1.234"), None);
    assert_eq!(parse_amount("12a"), None);
    assert_eq!(parse_amount("1.2.3"), None);
    assert_eq!(parse_amount("-1"), None);
    assert_eq!(parse_amount("1 0"), None);
}

#[test]
fn test_parse_amount_rejects_overflow() {
    assert_eq!(parse_amount("99999999999999999999999"), None);
    assert_eq!(parse_amount("18446744073709551615"), None); // u64::MAX: times 100 overflows
}
