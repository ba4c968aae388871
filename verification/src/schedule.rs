//! The cadence and time window of a run.

use crate::sample::{all_wf, Sample};
use vstd::prelude::*;

verus! {

/// Nanoseconds in a millisecond.
pub const NANOS_PER_MILLI: u64 = 1_000_000;

/// Milliseconds in a second.
pub const MILLIS_PER_SECOND: u64 = 1_000;

/// Interval between two probes of one target and total duration of the run.
/// All probers of a run share one schedule, so all targets are probed
/// against the same window. Clock readings are elapsed nanoseconds since the
/// run's start instant.
#[derive(Clone, Copy, Debug, PartialEq, Eq)]
pub struct Schedule {
    /// Interval between two ticks in milliseconds.
    pub interval_ms: u32,
    /// Duration of the run in seconds.
    pub duration_s: u32,
}

impl Schedule {
    /// Duration of the run in milliseconds.
    pub open spec fn duration_ms(self) -> nat {
        (self.duration_s * MILLIS_PER_SECOND) as nat
    }

    /// Interval between two ticks in nanoseconds.
    pub open spec fn interval_ns(self) -> nat {
        (self.interval_ms * NANOS_PER_MILLI) as nat
    }

    /// The reading at which the run ends.
    pub open spec fn end_ns(self) -> nat {
        (self.duration_s * MILLIS_PER_SECOND * NANOS_PER_MILLI) as nat
    }

    /// How long to sleep after a tick that began at `tick_ns`, when the
    /// clock reads `now_ns` after its probe: what is left of the interval,
    /// and nothing where the probe took longer than the interval.
    pub open spec fn remaining_ns(self, tick_ns: nat, now_ns: nat) -> nat {
        if tick_ns + self.interval_ns() > now_ns {
            (tick_ns + self.interval_ns() - now_ns) as nat
        } else {
            0
        }
    }

    /// Interval between two ticks in nanoseconds.
    pub fn interval_nanos(&self) -> (ns: u64)
        ensures
            ns == self.interval_ns(),
    {
        self.interval_ms as u64 * NANOS_PER_MILLI
    }

    /// The reading at which the run ends.
    pub fn end_nanos(&self) -> (ns: u64)
        ensures
            ns == self.end_ns(),
    {
        self.duration_s as u64 * MILLIS_PER_SECOND * NANOS_PER_MILLI
    }
}

/// What holds of the samples that a prober has recorded under `schedule`:
/// the offsets never decrease, every tick began before the end of the run,
/// and no tick began ahead of the ideal schedule, on which tick `i` begins
/// `i` intervals after the start.
pub open spec fn on_schedule(samples: Seq<Sample>, schedule: Schedule) -> bool {
    &&& forall|i: int, j: int|
        0 <= i <= j < samples.len() ==> (#[trigger] samples[i]).offset_ms <= (
        #[trigger] samples[j]).offset_ms
    &&& forall|i: int|
        0 <= i < samples.len() ==> (#[trigger] samples[i]).offset_ms < schedule.duration_ms()
    &&& forall|i: int|
        0 <= i < samples.len() ==> (#[trigger] samples[i]).offset_ms >= i * schedule.interval_ms
    &&& all_wf(samples)
}

} // verus!
