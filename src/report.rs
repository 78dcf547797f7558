use vstd::prelude::*;

use crate::protocol::{ActionMode, ReportMode};

verus! {

/// A sample streamed by the device in raw mode.
#[derive(Debug, Clone, Copy, PartialEq, Eq, Structural)]
pub struct RawReport {
    /// Device time of the sample.
    pub timestamp: u64,
    /// Brightness read by the light sensor.
    pub brightness: u16,
    /// Whether the trigger was active.
    pub trigger: bool,
}

/// A measurement streamed by the device in summary mode.
#[derive(Debug, Clone, Copy, PartialEq, Eq, Structural)]
pub struct SummaryReport {
    /// Measured delay between trigger and brightness change.
    pub delay: u64,
    /// Brightness threshold that was used.
    pub threshold: u16,
}

/// One event decoded from one valid frame.
#[derive(Debug, Clone, Copy, PartialEq, Eq, Structural)]
pub enum Report {
    Raw(RawReport),
    Summary(SummaryReport),
    PollRate(u16),
    ReportMode(ReportMode),
    Threshold(i16),
    Action(ActionMode),
    ManualTrigger,
}

} // verus!
