//! A calendar timestamp carried as plain fields.
//!
//! The engine never converts between time zones: callers hand it timestamps
//! in whatever zone they chose, and the engine only compares and buckets them.

use vstd::prelude::*;

verus! {

/// A wall-clock timestamp, split into calendar fields.
///
/// The engine compares these field-wise; it performs no calendar arithmetic,
/// so any representable combination can be carried, though well-formed values
/// (see [`Timestamp::wf`]) keep each field in its calendar range.
#[derive(Clone, Copy, Debug, PartialEq, Eq, Structural)]
pub struct Timestamp {
    /// Calendar year.
    pub year: i32,
    /// Month of the year, 1 through 12.
    pub month: u8,
    /// Day of the month, 1 through 31.
    pub day: u8,
    /// Hour of the day, 0 through 23.
    pub hour: u8,
    /// Minute of the hour, 0 through 59.
    pub minute: u8,
    /// Second of the minute, 0 through 59.
    pub second: u8,
}

impl Timestamp {
    /// Each field lies in its calendar range.
    pub open spec fn wf(self) -> bool {
        &&& 1 <= self.month <= 12
        &&& 1 <= self.day <= 31
        &&& self.hour < 24
        &&& self.minute < 60
        &&& self.second < 60
    }

    /// Builds a timestamp from its fields.
    pub fn new(year: i32, month: u8, day: u8, hour: u8, minute: u8, second: u8) -> (t: Timestamp)
        ensures
            t == (Timestamp { year, month, day, hour, minute, second }),
    {
        Timestamp { year, month, day, hour, minute, second }
    }
}

} // verus!
