//! The clocks the bar reads: chrono's local clock, and std's monotonic
//! `Instant`.
use vstd::prelude::*;

use chrono::Datelike;
use chrono::Timelike;
use std::fmt::Write;

verus! {

#[verifier::external_type_specification]
#[verifier::external_body]
pub struct ExInstant(std::time::Instant);

/// A reading of the local clock, as plain values.
#[derive(Debug, Clone, Copy, PartialEq, Eq)]
pub struct LocalReading {
    pub year: i32,
    /// Month of the year, 1 to 12.
    pub month: u32,
    /// Day of the month, 1 to 31.
    pub day: u32,
    /// Day of the week counted from Monday, 0 to 6.
    pub weekday: u32,
    /// Hour of the day, 0 to 23.
    pub hour: u32,
    /// Minute of the hour, 0 to 59.
    pub minute: u32,
    /// Second of the minute, 0 to 59.
    pub second: u32,
    /// Nanoseconds since the whole second; 1e9 and above within a leap second.
    pub nanosecond: u32,
    /// Seconds by which local time is ahead of UTC.
    pub offset_seconds: i32,
}

impl LocalReading {
    /// The ranges that chrono documents for the fields of a reading.
    pub open spec fn in_range(self) -> bool {
        &&& 1 <= self.month <= 12
        &&& 1 <= self.day <= 31
        &&& self.weekday < 7
        &&& self.hour < 24
        &&& self.minute < 60
        &&& self.second < 60
        &&& self.nanosecond < 2_000_000_000
        &&& -86_400 < self.offset_seconds < 86_400
    }
}

/// Reads the local clock with `chrono::Local::now` and gives the moment's
/// fields through chrono's accessors (`Datelike`, `Timelike`,
/// `Weekday::num_days_from_monday`, `FixedOffset::local_minus_utc`). The
/// contract states the ranges that chrono documents for them; which moment it
/// is depends on the clock and is not stated.
#[verifier::external_body]
pub(crate) fn read_local_clock() -> (r: LocalReading)
    ensures
        r.in_range(),
{
    let now = chrono::Local::now();
    LocalReading {
        year: now.year(),
        month: now.month(),
        day: now.day(),
        weekday: now.weekday().num_days_from_monday(),
        hour: now.hour(),
        minute: now.minute(),
        second: now.second(),
        nanosecond: now.nanosecond(),
        offset_seconds: now.offset().local_minus_utc(),
    }
}

/// The text that chrono's `DateTime::format` writes for a reading of the
/// local clock and a strftime-style pattern; `None` where the reading names
/// no moment that chrono can build, or chrono reports an error while
/// formatting (an invalid pattern).
pub uninterp spec fn chrono_format(reading: LocalReading, pattern: Seq<char>) -> Option<Seq<char>>;

/// The characters of an optional text.
pub open spec fn text_of(t: Option<String>) -> Option<Seq<char>> {
    match t {
        Some(s) => Some(s@),
        None => None,
    }
}

/// Formats a reading with chrono's `DateTime::format`: the reading is turned
/// back into a chrono date and time at its fixed UTC offset (the offset type
/// that chrono's local time zone carries), and written with `write!`. The
/// contract names the result (`chrono_format`) over the reading and the
/// pattern and states nothing more: strftime is chrono's own grammar.
#[verifier::external_body]
pub(crate) fn format_reading(reading: &LocalReading, pattern: &str) -> (r: Option<String>)
    ensures
        text_of(r) == chrono_format(*reading, pattern@),
{
    let offset = chrono::FixedOffset::east_opt(reading.offset_seconds)?;
    let moment = chrono::NaiveDate::from_ymd_opt(reading.year, reading.month, reading.day)?
        .and_hms_nano_opt(reading.hour, reading.minute, reading.second, reading.nanosecond)?
        .and_local_timezone(offset)
        .single()?;
    let mut out = String::new();
    match write!(out, "{}", moment.format(pattern)) {
        Ok(()) => Some(out),
        Err(_) => None,
    }
}

/// Calls `std::time::Instant::now`. Nothing is promised of the value.
#[verifier::external_body]
pub(crate) fn instant_now() -> std::time::Instant {
    std::time::Instant::now()
}

/// Calls `Instant::elapsed`: the time from `anchor` to the present moment
/// of the monotonic clock. It depends on the clock and is not stated.
#[verifier::external_body]
pub(crate) fn elapsed_since(anchor: &std::time::Instant) -> core::time::Duration {
    anchor.elapsed()
}

/// Calls `Duration::as_nanos`: a duration in whole nanoseconds. The duration
/// is opaque here, and nothing is stated of the result.
#[verifier::external_body]
pub(crate) fn duration_nanos(d: &core::time::Duration) -> u128 {
    d.as_nanos()
}

} // verus!
