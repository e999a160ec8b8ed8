//! Weather summary for one city: compass directions, unit conversions,
//! decimal rendering and the request URL, each with a verified contract.

pub mod compass;
pub mod decimal;
pub mod percent;
pub mod report;
pub mod units;
pub mod request;
