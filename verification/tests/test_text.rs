use herder::text::{append_decimal, decimal, parse_i64, parse_u64, signed_decimal};

#[test]
fn decimal_of_zero_is_one_digit() {
    assert_eq!(decimal(0), "0");
}

#[test]
fn decimal_of_small_and_large_numbers() {
    assert_eq!(decimal(7), "7");
    assert_eq!(decimal(10), "10");
    assert_eq!(decimal(12345), "12345");
    assert_eq!(decimal(u64::MAX), "18446744073709551615");
}

#[test]
fn append_decimal_keeps_what_was_there() {
    let mut s = String::from("/api/v1/accounts/");
    append_decimal(&mut s, 67890);
    assert_eq!(s, "/api/v1/accounts/67890");
}

#[test]
fn signed_decimal_puts_a_minus_before_negatives() {
    assert_eq!(signed_decimal(0), "0");
    assert_eq!(signed_decimal(-1), "-1");
    assert_eq!(signed_decimal(1234), "1234");
    assert_eq!(signed_decimal(i64::MAX), "9223372036854775807");
    assert_eq!(signed_decimal(i64::MIN), "-9223372036854775808");
}

#[test]
fn parse_u64_reads_numerals_only() {
    assert_eq!(parse_u64("0"), Some(0));
    assert_eq!(parse_u64("1234"), Some(1234));
    assert_eq!(parse_u64("007"), Some(7));
    assert_eq!(parse_u64("-0"), Some(0));
    assert_eq!(parse_u64(""), None);
    assert_eq!(parse_u64("-"), None);
    assert_eq!(parse_u64("-1"), None);
    assert_eq!(parse_u64("12a"), None);
    assert_eq!(parse_u64("1.0"), None);
    assert_eq!(parse_u64("+1"), None);
    assert_eq!(parse_u64(" 1"), None);
    assert_eq!(parse_u64("١٢"), None);
}

#[test]
fn parse_u64_stops_at_the_largest_value() {
    assert_eq!(parse_u64("18446744073709551615"), Some(u64::MAX));
    assert_eq!(parse_u64("18446744073709551616"), None);
    assert_eq!(parse_u64("99999999999999999999999999"), None);
    assert_eq!(parse_u64("184467440737095516150"), None);
}

#[test]
fn parse_i64_reads_both_signs() {
    assert_eq!(parse_i64("0"), Some(0));
    assert_eq!(parse_i64("-0"), Some(0));
    assert_eq!(parse_i64("-42"), Some(-42));
    assert_eq!(parse_i64("9223372036854775807"), Some(i64::MAX));
    assert_eq!(parse_i64("9223372036854775808"), None);
    assert_eq!(parse_i64("-9223372036854775808"), Some(i64::MIN));
    assert_eq!(parse_i64("-9223372036854775809"), None);
    assert_eq!(parse_i64("--1"), None);
    assert_eq!(parse_i64("1e3"), None);
}

#[test]
fn reading_back_a_numeral_gives_the_number() {
    let values: Vec<i64> = vec![0, 1, -1, 9, 10, -10, 99, 100, 1234, -98765, i64::MAX, i64::MIN];
    for v in values {
        assert_eq!(parse_i64(&signed_decimal(v)), Some(v));
    }
    let naturals: Vec<u64> = vec![0, 5, 10, 4294967295, 4294967296, u64::MAX];
    for n in naturals {
        assert_eq!(parse_u64(&decimal(n)), Some(n));
    }
}
