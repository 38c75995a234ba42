//! A rolling file writer: bytes are appended to an active file and, when a
//! configurable condition is met (time bucket changed or size threshold
//! reached), the file series is rotated into numbered backups with a bounded
//! retention count.
//!
//! The rotation engine here operates on an in-memory file series, so that the
//! condition logic, the rename chain and the writer lifecycle are all checked.
//! Real filesystem I/O is driven by executing the engine's rotation plan
//! (`rotation_actions`) against disk.

pub mod filename;
pub mod rolling_condition;
pub mod rolling_condition_basic;
pub mod rolling_file_appender_utc;
pub mod rolling_frequency;
pub mod rotation;
pub mod system_clock;
pub mod timestamp;

use vstd::prelude::*;

use rolling_condition_basic::RollingConditionBasicGeneric;
use rolling_file_appender_utc::RollingFileAppenderUtc;

verus! {

/// The basic rolling condition. Timestamps carry whatever time zone's
/// calendar fields the caller chose; the condition only compares them.
pub type RollingConditionBasic = RollingConditionBasicGeneric;

/// The basic rolling condition, under the name UTC callers use.
pub type RollingConditionBasicUtc = RollingConditionBasicGeneric;

/// A rolling file appender with the basic condition.
pub type BasicRollingFileAppender = RollingFileAppenderUtc<RollingConditionBasicGeneric>;

/// A rolling file appender with the basic condition, for UTC timestamps.
pub type BasicRollingFileAppenderUtc = RollingFileAppenderUtc<RollingConditionBasicGeneric>;

} // verus!
