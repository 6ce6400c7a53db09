use manguins::config::Config;
use manguins::text::{i64_to_decimal, parse_decimal, u64_to_decimal};

#[test]
fn test_config_defaults() {
    let cfg = Config::from_settings(None, None, None, None);
    assert_eq!(cfg.rsi_period, 14);
    assert_eq!(cfg.kline_limit, 50);
}

#[test]
fn config_all_defaults() {
    let cfg = Config::from_settings(None, None, None, None);
    assert_eq!(cfg.request_timeout_secs, 10);
    assert_eq!(cfg.rate_limit_secs, 2);
}

#[test]
fn config_reads_set_values() {
    let cfg = Config::from_settings(Some("21"), Some("100"), Some("+30"), Some("0"));
    assert_eq!(cfg.rsi_period, 21);
    assert_eq!(cfg.kline_limit, 100);
    assert_eq!(cfg.request_timeout_secs, 30);
    assert_eq!(cfg.rate_limit_secs, 0);
}

#[test]
fn config_invalid_values_fall_back() {
    let cfg = Config::from_settings(Some("abc"), Some("-5"), Some(" 10"), Some("18446744073709551616"));
    assert_eq!(cfg.rsi_period, 14);
    assert_eq!(cfg.kline_limit, 50);
    assert_eq!(cfg.request_timeout_secs, 10);
    assert_eq!(cfg.rate_limit_secs, 2);
}

#[test]
fn parse_decimal_cases() {
    assert_eq!(parse_decimal("0", u64::MAX), Some(0));
    assert_eq!(parse_decimal("007", u64::MAX), Some(7));
    assert_eq!(parse_decimal("+7", u64::MAX), Some(7));
    assert_eq!(parse_decimal("18446744073709551615", u64::MAX), Some(u64::MAX));
    assert_eq!(parse_decimal("18446744073709551616", u64::MAX), None);
    assert_eq!(parse_decimal("", u64::MAX), None);
    assert_eq!(parse_decimal("+", u64::MAX), None);
    assert_eq!(parse_decimal("++1", u64::MAX), None);
    assert_eq!(parse_decimal("-1", u64::MAX), None);
    assert_eq!(parse_decimal("1 ", u64::MAX), None);
    assert_eq!(parse_decimal("1_000", u64::MAX), None);
    assert_eq!(parse_decimal("٣", u64::MAX), None);
    assert_eq!(parse_decimal("256", 255), None);
    assert_eq!(parse_decimal("255", 255), Some(255));
}

#[test]
fn parse_decimal_agrees_with_std() {
    for text in ["0", "42", "+42", "-42", "", "+", "4 2", "99999999999999999999", "12a"] {
        assert_eq!(parse_decimal(text, u64::MAX), text.parse::<u64>().ok());
    }
}

#[test]
fn decimal_rendering() {
    assert_eq!(u64_to_decimal(0), "0");
    assert_eq!(u64_to_decimal(305), "305");
    assert_eq!(u64_to_decimal(u64::MAX), "18446744073709551615");
    assert_eq!(i64_to_decimal(-5), "-5");
    assert_eq!(i64_to_decimal(1499827319559), "1499827319559");
    assert_eq!(i64_to_decimal(i64::MIN), "-9223372036854775808");
}

#[test]
fn decimal_round_trip() {
    for n in [0u64, 9, 10, 123456789, u64::MAX] {
        assert_eq!(parse_decimal(&u64_to_decimal(n), u64::MAX), Some(n));
    }
}
