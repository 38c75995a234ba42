//! Frequency bucketing: mapping a timestamp to the canonical representative
//! of the period (day, hour or minute) that contains it.

use vstd::prelude::*;

use crate::timestamp::Timestamp;

verus! {

/// Determines how often a file should be rolled over.
#[derive(Clone, Copy, Debug, PartialEq, Eq, Structural)]
pub enum RollingFrequency {
    /// Roll over when the calendar day changes.
    EveryDay,
    /// Roll over when the hour changes.
    EveryHour,
    /// Roll over when the minute changes.
    EveryMinute,
}

impl RollingFrequency {
    /// The canonical representative of the period of `dt` under frequency
    /// `self`: the same day at midnight, the same hour at minute and second
    /// zero, or the same minute at second zero. Two timestamps lie in the
    /// same period exactly when their representatives are equal.
    pub open spec fn spec_equivalent(self, dt: Timestamp) -> Timestamp {
        match self {
            RollingFrequency::EveryDay => Timestamp {
                hour: 0,
                minute: 0,
                second: 0,
                ..dt
            },
            RollingFrequency::EveryHour => Timestamp { minute: 0, second: 0, ..dt },
            RollingFrequency::EveryMinute => Timestamp { second: 0, ..dt },
        }
    }

    /// Calculates a timestamp that will be different if data should be in
    /// different files.
    pub fn equivalent_datetime(&self, dt: &Timestamp) -> (r: Timestamp)
        ensures
            r == self.spec_equivalent(*dt),
    {
        match self {
            RollingFrequency::EveryDay => Timestamp {
                hour: 0,
                minute: 0,
                second: 0,
                ..*dt
            },
            RollingFrequency::EveryHour => Timestamp { minute: 0, second: 0, ..*dt },
            RollingFrequency::EveryMinute => Timestamp { second: 0, ..*dt },
        }
    }

    /// Whether `a` and `b` fall in the same period under frequency `self`.
    pub open spec fn same_bucket(self, a: Timestamp, b: Timestamp) -> bool {
        self.spec_equivalent(a) == self.spec_equivalent(b)
    }
}

/// Bucketing keeps a well-formed timestamp well-formed.
pub proof fn lemma_equivalent_wf(f: RollingFrequency, dt: Timestamp)
    requires
        dt.wf(),
    ensures
        f.spec_equivalent(dt).wf(),
{
}

} // verus!
