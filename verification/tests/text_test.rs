use stock_monitoring_bot::models::Percent;
use stock_monitoring_bot::text::{
    decimal_string, format_hundredths, format_instant, format_percent, grouped_string, instant_or,
    magnitude_of,
    normalize_symbol, parse_amount, record_instant, same_text,
};

#[test]
fn decimal_digits() {
    assert_eq!(decimal_string(0), "0");
    assert_eq!(decimal_string(7), "7");
    assert_eq!(decimal_string(10), "10");
    assert_eq!(decimal_string(1234567890), "1234567890");
    assert_eq!(decimal_string(u128::MAX), u128::MAX.to_string());
}

#[test]
fn digits_in_groups_of_three() {
    assert_eq!(grouped_string(0), "0");
    assert_eq!(grouped_string(999), "999");
    assert_eq!(grouped_string(1_000), "1,000");
    assert_eq!(grouped_string(1_002_030), "1,002,030");
    assert_eq!(grouped_string(12_345_678), "12,345,678");
    assert_eq!(grouped_string(u64::MAX), "18,446,744,073,709,551,615");
}

#[test]
fn magnitudes() {
    assert_eq!(magnitude_of(0), 0);
    assert_eq!(magnitude_of(-5), 5);
    assert_eq!(magnitude_of(5), 5);
    assert_eq!(magnitude_of(i128::MIN), 1u128 << 127);
}

#[test]
fn two_decimal_places() {
    assert_eq!(format_hundredths(12345), "123.45");
    assert_eq!(format_hundredths(15000), "150.00");
    assert_eq!(format_hundredths(5), "0.05");
    assert_eq!(format_hundredths(0), "0.00");
    assert_eq!(format_hundredths(-5), "-0.05");
    assert_eq!(format_hundredths(-12345), "-123.45");
}

#[test]
fn percent_with_two_places() {
    assert_eq!(format_percent(&Percent { numerator: 100_000, denominator: 10_000 }), "10.00");
    assert_eq!(format_percent(&Percent { numerator: 100 * 200, denominator: 1000 }), "20.00");
    assert_eq!(format_percent(&Percent { numerator: -100 * 125, denominator: 10_000 }), "-1.25");
    assert_eq!(format_percent(&Percent { numerator: 100, denominator: 3 }), "33.33");
    assert_eq!(format_percent(&Percent { numerator: 200, denominator: 3 }), "66.67");
    assert_eq!(format_percent(&Percent { numerator: 1, denominator: 8 }), "0.13");
    assert_eq!(format_percent(&Percent { numerator: -1, denominator: 8 }), "-0.13");
    assert_eq!(format_percent(&Percent { numerator: 999_999, denominator: 100_000 }), "10.00");
    assert_eq!(format_percent(&Percent { numerator: 1_994, denominator: 1_000 }), "1.99");
    assert_eq!(format_percent(&Percent { numerator: 1_995, denominator: 1_000 }), "2.00");
    assert_eq!(format_percent(&Percent { numerator: 100, denominator: -3 }), "-33.33");
    assert_eq!(format_percent(&Percent { numerator: -100, denominator: -3 }), "33.33");
    assert_eq!(format_percent(&Percent { numerator: 0, denominator: 5 }), "0.00");
    assert_eq!(format_percent(&Percent { numerator: -1, denominator: 1000 }), "-0.00");
}

#[test]
fn percent_of_zero_previous_close() {
    assert_eq!(format_percent(&Percent { numerator: 5, denominator: 0 }), "inf");
    assert_eq!(format_percent(&Percent { numerator: -5, denominator: 0 }), "-inf");
    assert_eq!(format_percent(&Percent { numerator: 0, denominator: 0 }), "NaN");
}

#[test]
fn percent_extremes() {
    let p = Percent { numerator: i128::MIN, denominator: i64::MIN };
    let expected_whole = (1u128 << 127) / (1u128 << 63);
    assert_eq!(format_percent(&p), format!("{}.00", expected_whole));
}

#[test]
fn amounts_parse_as_hundredths() {
    assert_eq!(parse_amount("150"), Some(15000));
    assert_eq!(parse_amount("150.5"), Some(15050));
    assert_eq!(parse_amount("150.55"), Some(15055));
    assert_eq!(parse_amount("150.05"), Some(15005));
    assert_eq!(parse_amount("0"), Some(0));
    assert_eq!(parse_amount("007"), Some(700));
    assert_eq!(parse_amount("5."), Some(500));
    assert_eq!(parse_amount("-3.2"), Some(-320));
    assert_eq!(parse_amount("+7"), Some(700));
    assert_eq!(parse_amount("1000000000000000"), Some(100_000_000_000_000_000));
    assert_eq!(parse_amount("1000000000000000.99"), Some(100_000_000_000_000_099));
}

#[test]
fn text_that_is_no_amount() {
    assert_eq!(parse_amount(""), None);
    assert_eq!(parse_amount("abc"), None);
    assert_eq!(parse_amount("-"), None);
    assert_eq!(parse_amount("+"), None);
    assert_eq!(parse_amount("."), None);
    assert_eq!(parse_amount(".5"), None);
    assert_eq!(parse_amount("1.234"), None);
    assert_eq!(parse_amount("1.2.3"), None);
    assert_eq!(parse_amount("1..2"), None);
    assert_eq!(parse_amount("12a"), None);
    assert_eq!(parse_amount("1.a"), None);
    assert_eq!(parse_amount("1.2a"), None);
    assert_eq!(parse_amount(" 1"), None);
    assert_eq!(parse_amount("--1"), None);
    assert_eq!(parse_amount("１２"), None);
    assert_eq!(parse_amount("1000000000000001"), None);
    assert_eq!(parse_amount("99999999999999999999999999"), None);
}

#[test]
fn symbols_are_upper_cased_and_trimmed() {
    assert_eq!(normalize_symbol("aapl "), "AAPL");
    assert_eq!(normalize_symbol("  msft\t"), "MSFT");
    assert_eq!(normalize_symbol("AAPL"), "AAPL");
    assert_eq!(normalize_symbol("   "), "");
    assert_eq!(normalize_symbol("brk.b"), "BRK.B");
}

#[test]
fn instants_in_utc() {
    assert_eq!(format_instant(0), "1970-01-01 00:00:00 UTC");
    assert_eq!(format_instant(1_704_067_200), "2024-01-01 00:00:00 UTC");
    assert_eq!(format_instant(1_700_000_000), "2023-11-14 22:13:20 UTC");
    assert_eq!(format_instant(i64::MAX), "");
}

#[test]
fn recorded_instants() {
    assert_eq!(record_instant(1_700_000_000, 5), 1_700_000_000);
    assert_eq!(record_instant(-1, 5), -1);
    assert_eq!(record_instant(i64::MAX, 5), 5);
    assert_eq!(instant_or(1, true, 2), 1);
    assert_eq!(instant_or(1, false, 2), 2);
}

#[test]
fn texts_compare_by_content() {
    assert!(same_text("list", "list"));
    assert!(!same_text("list", "List"));
    assert!(!same_text("list", "lists"));
}
