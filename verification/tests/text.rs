use omnibook_quoter::text::{i64_to_decimal, parse_u64, str_eq, u128_to_decimal};

#[test]
fn decimal_of_unsigned() {
    assert_eq!(u128_to_decimal(0), "0");
    assert_eq!(u128_to_decimal(7), "7");
    assert_eq!(u128_to_decimal(10), "10");
    assert_eq!(u128_to_decimal(1_700_000_000_123), "1700000000123");
    assert_eq!(u128_to_decimal(u128::MAX), u128::MAX.to_string());
}

#[test]
fn decimal_of_signed() {
    assert_eq!(i64_to_decimal(0), "0");
    assert_eq!(i64_to_decimal(42), "42");
    assert_eq!(i64_to_decimal(-42), "-42");
    assert_eq!(i64_to_decimal(i64::MIN), i64::MIN.to_string());
    assert_eq!(i64_to_decimal(i64::MAX), i64::MAX.to_string());
}

#[test]
fn string_equality() {
    assert!(str_eq("trading", "trading"));
    assert!(!str_eq("trading", "tradinG"));
    assert!(!str_eq("trading", "trade"));
    assert!(str_eq("", ""));
    assert!(str_eq("é€", "é€"));
}

#[test]
fn parse_unsigned_like_std() {
    let cases = [
        "0", "123", "+7", "+", "", "-1", "-0", "007", "12a", " 1", "1 ",
        "18446744073709551615", "18446744073709551616", "99999999999999999999999",
        "1700000000000000000", "+18446744073709551615", "++1", "٣",
    ];
    for c in cases {
        assert_eq!(parse_u64(c), c.parse::<u64>().ok(), "input {:?}", c);
    }
    assert_eq!(parse_u64("+7"), Some(7));
    assert_eq!(parse_u64("18446744073709551616"), None);
}
