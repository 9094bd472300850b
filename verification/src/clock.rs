//! Plain-value view of the wall clock and of stored timestamps.
//!
//! The core never holds a date-time value of an outside crate: an instant is
//! carried as the plain strings and the epoch second count the logic reads.

use vstd::prelude::*;

verus! {

/// A single instant, reduced to the plain values the core reads: the
/// calendar date, the time of day, the weekday label, the RFC 3339 rendering
/// stored as a session marker, and the same instant as whole seconds since
/// the Unix epoch.
#[derive(Debug, Clone)]
pub struct Moment {
    pub date: String,
    pub time: String,
    pub dotw: String,
    pub rfc3339: String,
    pub epoch_seconds: i64,
}

/// The instant an RFC 3339 string denotes, as whole seconds since the Unix
/// epoch; `None` where the string is not a valid RFC 3339 timestamp.
pub uninterp spec fn rfc3339_epoch(s: Seq<char>) -> Option<i64>;

/// Relies on chrono's `DateTime::parse_from_rfc3339` and
/// `DateTime::timestamp`: whether a string parses, and which instant it
/// denotes, depend on the characters alone.
#[verifier::external_body]
pub(crate) fn parse_rfc3339_seconds(s: &str) -> (r: Option<i64>)
    ensures
        r == rfc3339_epoch(s@),
{
    match chrono::DateTime::parse_from_rfc3339(s) {
        Ok(t) => Some(t.timestamp()),
        Err(_) => None,
    }
}

/// Relies on chrono's `Local::now`, whose result depends on the wall
/// clock, and on `DateTime::to_rfc3339`: the rendering denotes the same
/// instant except that the UTC offset is written at minute precision, so a
/// time zone with a sub-minute offset shifts the re-parsed instant by the
/// rounding of that offset — at most 30 seconds either way.
#[verifier::external_body]
pub(crate) fn now_moment() -> (r: Moment)
    ensures
        rfc3339_epoch(r.rfc3339@) matches Some(t) && -30 <= r.epoch_seconds - t <= 30,
{
    let now = chrono::Local::now();
    Moment {
        date: now.date_naive().to_string(),
        time: now.time().format("%H:%M:%S").to_string(),
        dotw: chrono::Datelike::weekday(&now).to_string(),
        rfc3339: now.to_rfc3339(),
        epoch_seconds: now.timestamp(),
    }
}

} // verus!
