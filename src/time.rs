//! Parameters and results of the time server's tools.

use vstd::prelude::*;

verus! {

/// Parameters for getting the current time.
#[derive(Clone, Debug)]
pub struct GetCurrentTimeParams {
    /// IANA timezone name (e.g. `Europe/London`, `UTC`).
    pub timezone: String,
}

/// Parameters for converting a time between timezones.
#[derive(Clone, Debug)]
pub struct ConvertTimeParams {
    /// Source IANA timezone name.
    pub source_timezone: String,
    /// Time in 24-hour format (`HH:MM`).
    pub time: String,
    /// Target IANA timezone name.
    pub target_timezone: String,
}

/// The time in one timezone.
#[derive(Clone, Debug)]
pub struct TimeResult {
    /// The IANA timezone name.
    pub timezone: String,
    /// ISO 8601 date and time with offset.
    pub datetime: String,
    /// Day of the week (e.g. `Monday`).
    pub day_of_week: String,
    /// Whether daylight saving time is in effect.
    pub is_dst: bool,
}

/// A time converted between timezones.
#[derive(Clone, Debug)]
pub struct ConvertTimeResult {
    /// The time in the source timezone.
    pub source: TimeResult,
    /// The time in the target timezone.
    pub target: TimeResult,
    /// Difference of the offsets, in hours (e.g. `+5.0h`).
    pub time_difference: String,
}

} // verus!
