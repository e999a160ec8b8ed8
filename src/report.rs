//! The lines of the printed weather summary.

use vstd::prelude::*;
use crate::compass::{compass_label, degrees_to_compass};
use crate::decimal::{
    hundredths_text, hundredths_to_text, int_text, int_to_text, round_tenth, tenth_rounded,
};
use crate::units::{celsius_of, kelvin_to_celsius, kmh_of, meters_per_sec_to_kmh};

verus! {

/// What the summary shows of one weather observation.
pub struct Observation {
    pub city: String,
    /// Free-text description of the sky, such as "clear sky".
    pub description: String,
    /// Temperature in hundredths of a kelvin.
    pub centikelvin: i32,
    /// Relative humidity in percent.
    pub humidity: i32,
    /// Wind speed in hundredths of a metre per second.
    pub wind_centi_mps: i32,
    /// Wind bearing in degrees.
    pub wind_deg: i32,
}

/// The summary: a header with the city, then the description, the
/// temperature in °C and the wind speed in km/h (both with two decimals), the
/// humidity, and the wind's compass point, one per line.
pub open spec fn summary_lines(
    city: Seq<char>,
    description: Seq<char>,
    centikelvin: int,
    humidity: int,
    wind_centi_mps: int,
    wind_deg: int,
) -> Seq<Seq<char>> {
    seq![
        city + ":"@,
        "Moln: "@ + description,
        "Tempratur: "@ + hundredths_text(celsius_of(centikelvin)) + "°C"@,
        "Fuktighet: "@ + int_text(humidity) + "%"@,
        "Vind hastighet: "@ + hundredths_text(tenth_rounded(kmh_of(wind_centi_mps))) + "km/h"@,
        "Vind rikting: "@ + compass_label(wind_deg),
    ]
}

impl Observation {
    pub open spec fn summary(&self) -> Seq<Seq<char>> {
        summary_lines(
            self.city@,
            self.description@,
            self.centikelvin as int,
            self.humidity as int,
            self.wind_centi_mps as int,
            self.wind_deg as int,
        )
    }

    /// The lines of the summary, in order.
    pub fn report_lines(&self) -> (r: Vec<String>)
        ensures
            r@.len() == self.summary().len(),
            forall|i: int| 0 <= i < r@.len() ==> #[trigger] r@[i]@ == self.summary()[i],
    {
        let mut header = self.city.clone();
        header.append(":");

        let mut sky = String::from_str("Moln: ");
        sky.append(self.description.as_str());

        let mut temp = String::from_str("Tempratur: ");
        let celsius = hundredths_to_text(kelvin_to_celsius(self.centikelvin));
        temp.append(celsius.as_str());
        temp.append("°C");

        let mut humidity = String::from_str("Fuktighet: ");
        let percent = int_to_text(self.humidity as i64);
        humidity.append(percent.as_str());
        humidity.append("%");

        let mut speed = String::from_str("Vind hastighet: ");
        let kmh = hundredths_to_text(round_tenth(meters_per_sec_to_kmh(self.wind_centi_mps)));
        speed.append(kmh.as_str());
        speed.append("km/h");

        let mut direction = String::from_str("Vind rikting: ");
        direction.append(degrees_to_compass(self.wind_deg));

        let mut lines: Vec<String> = Vec::new();
        lines.push(header);
        lines.push(sky);
        lines.push(temp);
        lines.push(humidity);
        lines.push(speed);
        lines.push(direction);
        lines
    }
}

} // verus!
