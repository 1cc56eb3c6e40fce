//! The time segment, from a reading of the local clock.

use std::fmt::Write;
use vstd::prelude::*;
use crate::repo::opt_view;
use crate::segment::{clock_line, time_line};

verus! {

/// A reading of the local clock: seconds and nanoseconds since the Unix
/// epoch, and the local time zone's offset east of UTC in seconds.
#[derive(Clone, Copy, Debug, PartialEq, Eq, Structural)]
pub struct ClockReading {
    pub secs: i64,
    pub nanos: u32,
    pub offset_secs: i32,
}

/// The local time of a reading written as a strftime pattern says; none
/// where the pattern cannot be read or the reading is out of range.
pub uninterp spec fn strftime_text(secs: i64, nanos: u32, offset_secs: i32, pattern: Seq<char>) -> Option<Seq<char>>;

/// Relies on chrono: `FixedOffset::east_opt` and `DateTime::from_timestamp`
/// rebuild the local time of the reading, `DateTime::format` writes it as the
/// pattern says and fails where the pattern cannot be read. The text depends
/// on the reading and the pattern alone.
#[verifier::external_body]
fn format_reading(at: &ClockReading, pattern: &str) -> (r: Option<String>)
    ensures
        opt_view(r) == strftime_text(at.secs, at.nanos, at.offset_secs, pattern@),
{
    let offset = chrono::FixedOffset::east_opt(at.offset_secs)?;
    let utc = chrono::DateTime::from_timestamp(at.secs, at.nanos)?;
    let mut s = String::new();
    match write!(s, "{}", utc.with_timezone(&offset).format(pattern)) {
        Ok(()) => Some(s),
        Err(_) => None,
    }
}

/// The time segment for the formatted time `stamp`, or none where there is
/// no formatted time.
pub open spec fn clock_segment(icon: Seq<char>, stamp: Option<Seq<char>>) -> Option<Seq<char>> {
    match stamp {
        Some(t) => Some(clock_line(icon, t)),
        None => None,
    }
}

/// The time segment for a clock reading, written as `pattern` says, after
/// `icon` where it is not empty. `None` where chrono cannot read the pattern.
pub fn time_segment(at: &ClockReading, pattern: &str, icon: &str) -> (r: Option<String>)
    ensures
        opt_view(r) == clock_segment(
            icon@,
            strftime_text(at.secs, at.nanos, at.offset_secs, pattern@),
        ),
{
    match format_reading(at, pattern) {
        Some(stamp) => Some(time_line(icon, stamp.as_str())),
        None => None,
    }
}

} // verus!
