use weather::decimal::{hundredths_to_text, int_to_text, round_tenth};
use weather::units::{kelvin_to_celsius, meters_per_sec_to_kmh};

#[test]
fn kelvin_to_celsius_subtracts_273_15() {
    assert_eq!(kelvin_to_celsius(30000), 2685);
    assert_eq!(kelvin_to_celsius(27315), 0);
    assert_eq!(kelvin_to_celsius(0), -27315);
    assert_eq!(kelvin_to_celsius(25000), -2315);
}

#[test]
fn speed_times_three_point_six() {
    assert_eq!(meters_per_sec_to_kmh(1000), 36000);
    assert_eq!(meters_per_sec_to_kmh(123), 4428);
    assert_eq!(meters_per_sec_to_kmh(0), 0);
    assert_eq!(meters_per_sec_to_kmh(-50), -1800);
}

#[test]
fn round_tenth_half_away_from_zero() {
    assert_eq!(round_tenth(36000), 3600);
    assert_eq!(round_tenth(4428), 443);
    assert_eq!(round_tenth(4424), 442);
    assert_eq!(round_tenth(4425), 443);
    assert_eq!(round_tenth(-4425), -443);
    assert_eq!(round_tenth(-4424), -442);
    assert_eq!(round_tenth(i64::MIN), -922337203685477581);
    assert_eq!(round_tenth(i64::MAX), 922337203685477581);
}

#[test]
fn hundredths_with_two_decimals() {
    assert_eq!(hundredths_to_text(2685), "26.85");
    assert_eq!(hundredths_to_text(3600), "36.00");
    assert_eq!(hundredths_to_text(0), "0.00");
    assert_eq!(hundredths_to_text(7), "0.07");
    assert_eq!(hundredths_to_text(-5), "-0.05");
    assert_eq!(hundredths_to_text(-27315), "-273.15");
    assert_eq!(hundredths_to_text(i64::MIN), "-92233720368547758.08");
}

#[test]
fn integers_in_decimal() {
    assert_eq!(int_to_text(50), "50");
    assert_eq!(int_to_text(0), "0");
    assert_eq!(int_to_text(-7), "-7");
    assert_eq!(int_to_text(1000), "1000");
    assert_eq!(int_to_text(i64::MIN), "-9223372036854775808");
    assert_eq!(int_to_text(i64::MAX), "9223372036854775807");
}
