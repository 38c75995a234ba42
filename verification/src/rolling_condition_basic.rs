//! A rolling condition built from an optional frequency and an optional
//! size threshold; either alone is enough to trigger a rollover.

use vstd::prelude::*;

use crate::rolling_condition::RollingCondition;
use crate::rolling_frequency::RollingFrequency;
use crate::timestamp::Timestamp;

verus! {

/// Implements a rolling condition based on a certain frequency
/// and/or a size limit. The default condition is to rotate daily.
#[derive(Clone, Debug)]
pub struct RollingConditionBasicGeneric {
    /// The timestamp of the most recent evaluation, unset before the first.
    pub last_write_opt: Option<Timestamp>,
    /// Roll over when the period of this frequency changes, if set.
    pub frequency_opt: Option<RollingFrequency>,
    /// Roll over when the tracked file size reaches this many bytes, if set.
    pub max_size_opt: Option<u64>,
}

impl RollingConditionBasicGeneric {
    /// Constructs a new struct that does not yet have any condition set.
    pub fn new() -> (c: RollingConditionBasicGeneric)
        ensures
            c == (RollingConditionBasicGeneric {
                last_write_opt: None,
                frequency_opt: None,
                max_size_opt: None,
            }),
    {
        RollingConditionBasicGeneric {
            last_write_opt: None,
            frequency_opt: None,
            max_size_opt: None,
        }
    }

    /// Sets a condition to rollover on the given frequency.
    pub fn frequency(self, x: RollingFrequency) -> (c: RollingConditionBasicGeneric)
        ensures
            c == (RollingConditionBasicGeneric { frequency_opt: Some(x), ..self }),
    {
        RollingConditionBasicGeneric { frequency_opt: Some(x), ..self }
    }

    /// Sets a condition to rollover when the date changes.
    pub fn daily(self) -> (c: RollingConditionBasicGeneric)
        ensures
            c == (RollingConditionBasicGeneric {
                frequency_opt: Some(RollingFrequency::EveryDay),
                ..self
            }),
    {
        self.frequency(RollingFrequency::EveryDay)
    }

    /// Sets a condition to rollover when the date or hour changes.
    pub fn hourly(self) -> (c: RollingConditionBasicGeneric)
        ensures
            c == (RollingConditionBasicGeneric {
                frequency_opt: Some(RollingFrequency::EveryHour),
                ..self
            }),
    {
        self.frequency(RollingFrequency::EveryHour)
    }

    /// Sets a condition to rollover when a certain size is reached.
    pub fn max_size(self, x: u64) -> (c: RollingConditionBasicGeneric)
        ensures
            c == (RollingConditionBasicGeneric { max_size_opt: Some(x), ..self }),
    {
        RollingConditionBasicGeneric { max_size_opt: Some(x), ..self }
    }
}

impl Default for RollingConditionBasicGeneric {
    /// The default condition rolls over daily, with no size threshold.
    fn default() -> (c: Self)
        ensures
            c == (RollingConditionBasicGeneric {
                last_write_opt: None,
                frequency_opt: Some(RollingFrequency::EveryDay),
                max_size_opt: None,
            }),
    {
        RollingConditionBasicGeneric::new().frequency(RollingFrequency::EveryDay)
    }
}

impl RollingCondition for RollingConditionBasicGeneric {
    /// Rollover is needed when a configured frequency sees `now` in a new
    /// period relative to the last observed timestamp (skipped on the very
    /// first evaluation), or when a configured size threshold is reached;
    /// the two checks are ORed.
    open spec fn spec_should_rollover(self, now: Timestamp, current_filesize: u64) -> bool {
        ||| {
            &&& self.frequency_opt is Some
            &&& self.last_write_opt is Some
            &&& !self.frequency_opt->0.same_bucket(now, self.last_write_opt->0)
        }
        ||| (self.max_size_opt is Some && current_filesize >= self.max_size_opt->0)
    }

    /// Every evaluation records `now` as the last observed timestamp.
    open spec fn spec_observe(self, now: Timestamp) -> Self {
        RollingConditionBasicGeneric { last_write_opt: Some(now), ..self }
    }

    fn should_rollover(&mut self, now: &Timestamp, current_filesize: u64) -> (r: bool) {
        let mut rollover = false;
        if let Some(frequency) = self.frequency_opt {
            if let Some(last_write) = self.last_write_opt {
                if frequency.equivalent_datetime(now) != frequency.equivalent_datetime(&last_write) {
                    rollover = true;
                }
            }
        }
        if let Some(max_size) = self.max_size_opt {
            if current_filesize >= max_size {
                rollover = true;
            }
        }
        self.last_write_opt = Some(*now);
        rollover
    }
}

/// With a size threshold configured, an evaluation that sees the tracked
/// size at or above the threshold decides to roll over, whatever the
/// timestamps are.
pub proof fn lemma_size_threshold_triggers(
    c: RollingConditionBasicGeneric,
    now: Timestamp,
    current_filesize: u64,
)
    requires
        c.max_size_opt is Some,
        current_filesize >= c.max_size_opt->0,
    ensures
        c.spec_should_rollover(now, current_filesize),
{
}

/// On the very first evaluation there is no previous timestamp to compare
/// against, so only the size check can decide to roll over.
pub proof fn lemma_first_evaluation_size_only(
    c: RollingConditionBasicGeneric,
    now: Timestamp,
    current_filesize: u64,
)
    requires
        c.last_write_opt is None,
    ensures
        c.spec_should_rollover(now, current_filesize) <==> (c.max_size_opt is Some
            && current_filesize >= c.max_size_opt->0),
{
}

/// For a frequency-only condition, two consecutive evaluations roll over
/// exactly when the second timestamp falls in a new bucket relative to the
/// first: timestamps in the same bucket never trigger rotation between
/// them, and a bucket change triggers it.
pub proof fn lemma_consecutive_evaluations_bucket(
    c: RollingConditionBasicGeneric,
    first: Timestamp,
    second: Timestamp,
    size_at_second: u64,
)
    requires
        c.frequency_opt is Some,
        c.max_size_opt is None,
    ensures
        c.spec_observe(first).spec_should_rollover(second, size_at_second)
            <==> !c.frequency_opt->0.same_bucket(second, first),
{
}

} // verus!
