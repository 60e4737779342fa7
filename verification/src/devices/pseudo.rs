//! Devices that exist only to tell the host something.

use vstd::prelude::*;

verus! {

/// A point in time, in microseconds of wall-clock time and of processor time.
#[derive(Clone, Copy, Debug, PartialEq, Eq, Structural)]
pub struct TimestampUs {
    /// Wall-clock time.
    pub time_us: u64,
    /// Processor time of the process.
    pub cputime_us: u64,
}

/// A device that the guest writes to when it has booted, so that the host can tell how
/// long booting took.
#[derive(Clone, Copy, Debug, PartialEq, Eq, Structural)]
pub struct BootTimer {
    /// When the machine was asked to start.
    pub start_ts: TimestampUs,
}

impl BootTimer {
    /// A timer that counts from `start_ts`.
    pub fn new(start_ts: TimestampUs) -> (timer: Self)
        ensures
            timer.start_ts == start_ts,
    {
        BootTimer { start_ts }
    }
}

} // verus!
