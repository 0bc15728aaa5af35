use trader_daemon::config::{interval_minutes_from_setting, parse_u32};
use trader_daemon::price::parse_price;

#[test]
fn parses_integer_and_fraction_exactly() {
    assert_eq!(parse_price("123.45").unwrap().units, 12_345_000_000);
    assert_eq!(parse_price("0").unwrap().units, 0);
    assert_eq!(parse_price("1").unwrap().units, 100_000_000);
    assert_eq!(parse_price("0.00000001").unwrap().units, 1);
    assert_eq!(parse_price("67890.12345678").unwrap().units, 6_789_012_345_678);
}

#[test]
fn keeps_full_precision_at_the_limits() {
    assert_eq!(
        parse_price("99999999999.99999999").unwrap().units,
        9_999_999_999_999_999_999
    );
    assert_eq!(parse_price("00000000001").unwrap().units, 100_000_000);
}

#[test]
fn trailing_dot_is_a_whole_number() {
    assert_eq!(parse_price("5.").unwrap().units, 500_000_000);
}

#[test]
fn rejects_malformed_fields() {
    assert!(parse_price("").is_none());
    assert!(parse_price("abc").is_none());
    assert!(parse_price("1.2.3").is_none());
    assert!(parse_price(".5").is_none());
    assert!(parse_price("-1").is_none());
    assert!(parse_price("1e5").is_none());
    assert!(parse_price("1 2").is_none());
    assert!(parse_price(".").is_none());
}

#[test]
fn rejects_out_of_range_fields() {
    // Twelve integer digits or nine fraction digits exceed the grammar.
    assert!(parse_price("123456789012").is_none());
    assert!(parse_price("1.123456789").is_none());
}

#[test]
fn parses_u32_settings_exactly() {
    assert_eq!(parse_u32("5"), Some(5));
    assert_eq!(parse_u32("0"), Some(0));
    assert_eq!(parse_u32("007"), Some(7));
    assert_eq!(parse_u32("4294967295"), Some(u32::MAX));
    assert_eq!(parse_u32("4294967296"), None);
    assert_eq!(parse_u32("12345678901"), None);
    assert_eq!(parse_u32(""), None);
    assert_eq!(parse_u32("x"), None);
    assert_eq!(parse_u32("-3"), None);
}

#[test]
fn interval_defaults_to_five() {
    assert_eq!(interval_minutes_from_setting(None), 5);
    assert_eq!(interval_minutes_from_setting(Some("abc")), 5);
    assert_eq!(interval_minutes_from_setting(Some("0")), 5);
    assert_eq!(interval_minutes_from_setting(Some("")), 5);
}

#[test]
fn interval_takes_a_positive_setting() {
    assert_eq!(interval_minutes_from_setting(Some("1")), 1);
    assert_eq!(interval_minutes_from_setting(Some("15")), 15);
    assert_eq!(interval_minutes_from_setting(Some("60")), 60);
}
