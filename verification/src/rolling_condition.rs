//! The capability that decides when the active file must be rolled over.

use vstd::prelude::*;

use crate::timestamp::Timestamp;

verus! {

/// Determines when a file should be "rolled over".
///
/// An implementation is a deterministic function of its own state, the
/// current timestamp and the current file size: `spec_should_rollover` gives
/// the decision and `spec_observe` the state after recording the timestamp.
pub trait RollingCondition: Sized {
    /// The rollover decision for state `self`, timestamp `now` and file size
    /// `current_filesize`.
    spec fn spec_should_rollover(self, now: Timestamp, current_filesize: u64) -> bool;

    /// The condition state after an evaluation that observed `now`.
    spec fn spec_observe(self, now: Timestamp) -> Self;

    /// Determine and return whether or not the file should be rolled over.
    /// Every evaluation records `now` as the last observed timestamp,
    /// whatever the decision was.
    fn should_rollover(&mut self, now: &Timestamp, current_filesize: u64) -> (r: bool)
        ensures
            r == old(self).spec_should_rollover(*now, current_filesize),
            *final(self) == old(self).spec_observe(*now),
    ;
}

} // verus!
