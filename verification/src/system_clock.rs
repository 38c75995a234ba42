//! A clock for callers that do not pass an explicit timestamp.

use vstd::prelude::*;

use crate::timestamp::Timestamp;

verus! {

/// A source of "now" for the implicit-time write path.
pub trait Clock {
    /// The current time, as a well-formed timestamp.
    fn now() -> (t: Timestamp)
        ensures
            t.wf(),
    ;
}

/// The system clock, read in UTC.
pub struct SystemClock {}

impl Clock for SystemClock {
    fn now() -> (t: Timestamp) {
        chrono_now_utc()
    }
}

/// Relies on `chrono::Utc::now` and chrono's `Datelike` / `Timelike`
/// getters, whose documentation bounds each field: month 1 to 12, day 1 to
/// 31, hour below 24, minute and second below 60. Nothing more is assumed of
/// the clock's value.
#[verifier::external_body]
fn chrono_now_utc() -> (t: Timestamp)
    ensures
        t.wf(),
{
    let n = chrono::Utc::now();
    Timestamp {
        year: chrono::Datelike::year(&n),
        month: chrono::Datelike::month(&n) as u8,
        day: chrono::Datelike::day(&n) as u8,
        hour: chrono::Timelike::hour(&n) as u8,
        minute: chrono::Timelike::minute(&n) as u8,
        second: chrono::Timelike::second(&n) as u8,
    }
}

} // verus!
