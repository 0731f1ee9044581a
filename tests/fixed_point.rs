use market_data::{is_expired, parse_fixed, timestamp_age, to_fixed};

#[test]
fn converts_price_text() {
    assert_eq!(to_fixed("145.85"), 145_850_000);
    assert_eq!(to_fixed("0"), 0);
}

#[test]
fn truncates_past_six_digits() {
    assert_eq!(to_fixed("1.23456789"), 1_234_567);
    assert_eq!(to_fixed("0.0000009"), 0);
}

#[test]
fn reads_partial_forms() {
    assert_eq!(parse_fixed(".5"), Some(500_000));
    assert_eq!(parse_fixed("5."), Some(5_000_000));
    assert_eq!(parse_fixed("007"), Some(7_000_000));
}

#[test]
fn rejects_other_text() {
    assert_eq!(parse_fixed(""), None);
    assert_eq!(parse_fixed("."), None);
    assert_eq!(parse_fixed("1.2.3"), None);
    assert_eq!(parse_fixed("abc"), None);
    assert_eq!(parse_fixed("-1"), None);
    assert_eq!(to_fixed("-1"), 0);
    assert_eq!(to_fixed("1e3"), 0);
}

#[test]
fn saturates_large_values() {
    assert_eq!(to_fixed("99999999999999999999"), u64::MAX);
    assert_eq!(to_fixed("18446744073709.551615"), u64::MAX);
    assert_eq!(to_fixed("18446744073709.551614"), u64::MAX - 1);
}

#[test]
fn timestamp_age_in_milliseconds() {
    assert_eq!(timestamp_age(0, 5000), None);
    assert_eq!(timestamp_age(1000, 3500), Some(2500));
    assert_eq!(timestamp_age(1, 151), Some(150));
    assert_eq!(timestamp_age(5000, 1000), Some(0));
}

#[test]
fn age_of_rows_around_retention_limit() {
    let day: u64 = 86_400_000;
    let now: u64 = 1_700_000_000_000;
    assert_eq!(timestamp_age(now - 8 * day, now), Some(691_200_000));
    assert_eq!(timestamp_age(now - day, now), Some(86_400_000));
    assert!(is_expired((now - 8 * day) as i64, now as i64));
    assert!(!is_expired((now - day) as i64, now as i64));
}
