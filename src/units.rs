//! Temperature and speed conversions on fixed-point values.
//!
//! Temperatures are counted in hundredths of a degree and speeds in
//! hundredths of a metre per second, so each conversion is exact.

use vstd::prelude::*;

verus! {

/// Hundredths of a degree between 0 K and 0 °C.
pub const ZERO_CELSIUS_IN_KELVIN: i64 = 27315;

/// The Celsius temperature, in hundredths of a degree, of `centikelvin`
/// hundredths of a kelvin: the Kelvin value less 273.15.
pub open spec fn celsius_of(centikelvin: int) -> int {
    centikelvin - 27315
}

/// The speed in thousandths of a km/h of `centi_mps` hundredths of a metre
/// per second: the m/s value times 3.6.
pub open spec fn kmh_of(centi_mps: int) -> int {
    centi_mps * 36
}

/// Converts a temperature from Kelvin to Celsius, both in hundredths of a degree.
pub fn kelvin_to_celsius(centikelvin: i32) -> (r: i64)
    ensures
        r == celsius_of(centikelvin as int),
{
    centikelvin as i64 - ZERO_CELSIUS_IN_KELVIN
}

/// Converts a wind speed in hundredths of a metre per second (the unit the
/// weather service reports) to thousandths of a kilometre per hour.
pub fn meters_per_sec_to_kmh(centi_mps: i32) -> (r: i64)
    ensures
        r == kmh_of(centi_mps as int),
{
    centi_mps as i64 * 36
}

} // verus!
