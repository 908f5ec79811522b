//! Readings of the wall clock, and date-times written as and read from text.
//!
//! A date-time is held as microseconds since the Unix epoch, UTC.
use std::fmt::Write;

use vstd::prelude::*;

verus! {

/// The microseconds since the epoch of `DateTime::<Utc>::MAX_UTC`, the
/// latest date-time chrono holds: 262142-12-31 23:59:59, with a leap second.
pub const LATEST_CLOCK_MICROS: i64 = 8_210_266_876_800_999_999;

/// The current time, in microseconds since the Unix epoch, UTC, as chrono
/// holds it.
///
/// Reads `std::time::SystemTime::now()` as a duration since the epoch and
/// turns it into a chrono date-time with `DateTime::from_timestamp`, then
/// takes its `timestamp_micros()`. `None` where the clock reads before the
/// epoch or past what chrono holds. Which time comes back is whatever the
/// clock reads; stated is only that a reading lies between the epoch and
/// `MAX_UTC`.
#[verifier::external_body]
pub(crate) fn utc_now_micros() -> (r: Option<i64>)
    ensures
        r matches Some(t) ==> 0 <= t <= LATEST_CLOCK_MICROS,
{
    let since = std::time::SystemTime::now().duration_since(std::time::UNIX_EPOCH).ok()?;
    let secs = i64::try_from(since.as_secs()).ok()?;
    let dt = chrono::DateTime::from_timestamp(secs, since.subsec_nanos())?;
    Some(dt.timestamp_micros())
}

/// The text that chrono's `format(fmt)` writes for the UTC date-time at
/// `micros`; `None` where chrono has no date-time for `micros` or the
/// format cannot be written.
pub uninterp spec fn timestamp_text(micros: i64, fmt: Seq<char>) -> Option<Seq<char>>;

/// The time, in microseconds, of the date-time that chrono's
/// `NaiveDateTime::parse_from_str(text, fmt)` reads; `None` where it refuses.
pub uninterp spec fn parsed_timestamp(text: Seq<char>, fmt: Seq<char>) -> Option<i64>;

/// Calls `chrono::DateTime::from_timestamp_micros`, then writes the
/// date-time with `format(fmt)`; the result is named by `timestamp_text`.
#[verifier::external_body]
pub(crate) fn format_timestamp(micros: i64, fmt: &str) -> (r: Option<String>)
    ensures
        match (r, timestamp_text(micros, fmt@)) {
            (Some(a), Some(b)) => a@ == b,
            (None, None) => true,
            _ => false,
        },
{
    let dt = chrono::DateTime::from_timestamp_micros(micros)?;
    let mut out = String::new();
    match write!(out, "{}", dt.naive_utc().format(fmt)) {
        Ok(()) => Some(out),
        Err(_) => None,
    }
}

/// Calls `chrono::NaiveDateTime::parse_from_str(text, fmt)` and takes the
/// parsed date-time's microseconds since the epoch, as UTC; the result is
/// named by `parsed_timestamp`.
#[verifier::external_body]
pub(crate) fn parse_timestamp(text: &str, fmt: &str) -> (r: Option<i64>)
    ensures
        r == parsed_timestamp(text@, fmt@),
{
    chrono::NaiveDateTime::parse_from_str(text, fmt).ok().map(|dt| dt.and_utc().timestamp_micros())
}

} // verus!
