use supportcarr::fixed::{
    decimal, kilometers_to_meters, miles_to_kilometers, natural, MILLIONTHS,
};

fn text(value: i64) -> String {
    String::from_utf8(decimal(value)).unwrap()
}

#[test]
fn decimal_text_of_typical_values() {
    assert_eq!(MILLIONTHS, 1_000_000);
    assert_eq!(text(24_140_100), "24.1401");
    assert_eq!(text(-118_243_700), "-118.2437");
    assert_eq!(text(34_052_200), "34.0522");
    assert_eq!(text(15_000_000), "15.0");
    assert_eq!(text(0), "0.0");
    assert_eq!(text(1), "0.000001");
    assert_eq!(text(-1), "-0.000001");
    assert_eq!(text(10), "0.00001");
    assert_eq!(text(500_000), "0.5");
    assert_eq!(text(-500_000), "-0.5");
    assert_eq!(text(1_000_001), "1.000001");
    assert_eq!(text(123_456_789), "123.456789");
    assert_eq!(text(120_000_000), "120.0");
}

#[test]
fn decimal_text_at_the_ends_of_the_range() {
    assert_eq!(text(i64::MAX), "9223372036854.775807");
    assert_eq!(text(i64::MIN), "-9223372036854.775808");
}

#[test]
fn decimal_text_reads_back_as_the_value() {
    for value in [0i64, 1, -1, 999_999, 1_000_000, 24_140_100, -118_243_700, 2_000_000_000] {
        let read: f64 = text(value).parse().unwrap();
        assert_eq!((read * 1_000_000.0).round() as i64, value);
    }
}

#[test]
fn natural_text_has_no_leading_zeros() {
    let as_text = |n: u64| String::from_utf8(natural(n)).unwrap();
    assert_eq!(as_text(0), "0");
    assert_eq!(as_text(1), "1");
    assert_eq!(as_text(9), "9");
    assert_eq!(as_text(10), "10");
    assert_eq!(as_text(5), "5");
    assert_eq!(as_text(1_000), "1000");
    assert_eq!(as_text(u64::MAX), "18446744073709551615");
}

#[test]
fn fifteen_miles_are_24_1401_kilometers() {
    assert_eq!(miles_to_kilometers(15_000_000), 24_140_100);
    assert_eq!(miles_to_kilometers(1_000_000), 1_609_340);
    assert_eq!(miles_to_kilometers(10_000_000), 16_093_400);
    assert_eq!(miles_to_kilometers(0), 0);
    assert_eq!(miles_to_kilometers(-15_000_000), -24_140_100);
}

#[test]
fn miles_to_kilometers_rounds_to_nearest() {
    // 1.60934, 3.21868, 4.82802 and 8.0467 millionths
    assert_eq!(miles_to_kilometers(1), 2);
    assert_eq!(miles_to_kilometers(2), 3);
    assert_eq!(miles_to_kilometers(3), 5);
    assert_eq!(miles_to_kilometers(5), 8);
    assert_eq!(miles_to_kilometers(-1), -2);
    assert_eq!(miles_to_kilometers(-3), -5);
    // 50_000 * 1.60934 = 80_467 exactly
    assert_eq!(miles_to_kilometers(50_000), 80_467);
}

#[test]
fn conversions_stop_at_the_ends_of_the_range() {
    assert_eq!(miles_to_kilometers(i64::MAX), i64::MAX);
    assert_eq!(miles_to_kilometers(i64::MIN), i64::MIN);
    assert_eq!(kilometers_to_meters(i64::MAX), i64::MAX);
    assert_eq!(kilometers_to_meters(i64::MIN), i64::MIN);
    assert_eq!(kilometers_to_meters(9_223_372_036_854_775), 9_223_372_036_854_775_000);
    assert_eq!(kilometers_to_meters(9_223_372_036_854_776), i64::MAX);
}

#[test]
fn two_kilometers_are_two_thousand_meters() {
    assert_eq!(kilometers_to_meters(2_000_000), 2_000_000_000);
    assert_eq!(kilometers_to_meters(0), 0);
    assert_eq!(kilometers_to_meters(1), 1_000);
    assert_eq!(kilometers_to_meters(-2_500_000), -2_500_000_000);
}
