use eth_tx_sync::numeric::{parse_i64_dec, parse_u64_dec, u64_to_dec_string};

#[test]
fn parse_u64_dec_plain_values() {
    assert_eq!(parse_u64_dec("0"), Some(0));
    assert_eq!(parse_u64_dec("1050000"), Some(1_050_000));
    assert_eq!(parse_u64_dec("18446744073709551615"), Some(u64::MAX));
}

#[test]
fn parse_u64_dec_rejects_overflow() {
    assert_eq!(parse_u64_dec("18446744073709551616"), None);
    assert_eq!(parse_u64_dec("99999999999999999999"), None);
}

#[test]
fn parse_u64_dec_rejects_non_numerals() {
    assert_eq!(parse_u64_dec(""), None);
    assert_eq!(parse_u64_dec("12a"), None);
    assert_eq!(parse_u64_dec("-1"), None);
    assert_eq!(parse_u64_dec(" 1"), None);
}

#[test]
fn parse_i64_dec_signed_values() {
    assert_eq!(parse_i64_dec("1694600000"), Some(1_694_600_000));
    assert_eq!(parse_i64_dec("-5"), Some(-5));
    assert_eq!(parse_i64_dec("9223372036854775807"), Some(i64::MAX));
    assert_eq!(parse_i64_dec("-9223372036854775808"), Some(i64::MIN));
}

#[test]
fn parse_i64_dec_rejects_out_of_range_and_malformed() {
    assert_eq!(parse_i64_dec("9223372036854775808"), None);
    assert_eq!(parse_i64_dec("-9223372036854775809"), None);
    assert_eq!(parse_i64_dec("-"), None);
    assert_eq!(parse_i64_dec(""), None);
    assert_eq!(parse_i64_dec("1.5"), None);
}

#[test]
fn u64_to_dec_string_formats() {
    assert_eq!(u64_to_dec_string(0).as_str(), "0");
    assert_eq!(u64_to_dec_string(7).as_str(), "7");
    assert_eq!(u64_to_dec_string(12345).as_str(), "12345");
    assert_eq!(u64_to_dec_string(u64::MAX).as_str(), "18446744073709551615");
}
