//! What one probe yields: a latency or a timeout, and when it was sent.

use vstd::prelude::*;

verus! {

/// The latency value that stands for "no answer" in a report file.
pub const TIMEOUT_SENTINEL: u32 = 0xFFFF_FFFF;

/// Outcome of one probe.
#[derive(Clone, Copy, Debug, PartialEq, Eq)]
pub enum Latency {
    /// The target answered after this many milliseconds.
    Answered(u32),
    /// No answer within the timeout, or the transport failed.
    TimedOut,
}

impl Latency {
    /// The number written to a report file for this outcome.
    pub open spec fn wire(self) -> u32 {
        match self {
            Latency::Answered(ms) => ms,
            Latency::TimedOut => TIMEOUT_SENTINEL,
        }
    }

    /// The outcome that a number read from a report file stands for.
    pub open spec fn of_wire(wire: u32) -> Latency {
        if wire == TIMEOUT_SENTINEL {
            Latency::TimedOut
        } else {
            Latency::Answered(wire)
        }
    }

    /// The outcome recorded for what the transport reported: `Some` round-trip
    /// time, or `None` for a timeout or an error.
    pub open spec fn of_reply(reply: Option<u32>) -> Latency {
        match reply {
            Some(ms) => Latency::of_wire(ms),
            None => Latency::TimedOut,
        }
    }

    /// An answered latency never collides with the sentinel.
    pub open spec fn wf(self) -> bool {
        self matches Latency::Answered(ms) ==> ms != TIMEOUT_SENTINEL
    }

    /// The answered latency in milliseconds, if there was an answer.
    pub open spec fn millis(self) -> Option<u32> {
        match self {
            Latency::Answered(ms) => Some(ms),
            Latency::TimedOut => None,
        }
    }

    /// The number to write to a report file for this outcome.
    pub fn to_wire(&self) -> (wire: u32)
        ensures
            wire == self.wire(),
    {
        match self {
            Latency::Answered(ms) => *ms,
            Latency::TimedOut => TIMEOUT_SENTINEL,
        }
    }

    /// The outcome that a number read from a report file stands for.
    pub fn from_wire(wire: u32) -> (latency: Latency)
        ensures
            latency == Latency::of_wire(wire),
            latency.wf(),
    {
        if wire == TIMEOUT_SENTINEL {
            Latency::TimedOut
        } else {
            Latency::Answered(wire)
        }
    }

    /// Turns the transport's report into the outcome to record. A failed
    /// probe is data, not an error.
    pub fn from_reply(reply: Option<u32>) -> (latency: Latency)
        ensures
            latency == Latency::of_reply(reply),
            latency.wf(),
    {
        match reply {
            Some(ms) => Latency::from_wire(ms),
            None => Latency::TimedOut,
        }
    }

    /// The answered latency in milliseconds, if there was an answer.
    pub fn answered_millis(&self) -> (ms: Option<u32>)
        ensures
            ms == self.millis(),
    {
        match self {
            Latency::Answered(ms) => Some(*ms),
            Latency::TimedOut => None,
        }
    }
}

/// One recorded probe: when its tick began, in milliseconds since the start
/// of the run, and what came back.
#[derive(Clone, Copy, Debug, PartialEq, Eq)]
pub struct Sample {
    pub offset_ms: u64,
    pub latency: Latency,
}

impl Sample {
    /// The latency is well formed.
    pub open spec fn wf(self) -> bool {
        self.latency.wf()
    }

    /// The pair of numbers written to a report file for this sample.
    pub open spec fn wire(self) -> (u64, u32) {
        (self.offset_ms, self.latency.wire())
    }

    /// The sample that a pair of numbers read from a report file stands for.
    pub open spec fn of_wire(wire: (u64, u32)) -> Sample {
        Sample { offset_ms: wire.0, latency: Latency::of_wire(wire.1) }
    }

    /// The pair of numbers to write to a report file for this sample.
    pub fn to_wire(&self) -> (wire: (u64, u32))
        ensures
            wire == self.wire(),
    {
        (self.offset_ms, self.latency.to_wire())
    }

    /// The sample that a pair of numbers read from a report file stands for.
    pub fn from_wire(wire: (u64, u32)) -> (sample: Sample)
        ensures
            sample == Sample::of_wire(wire),
            sample.wf(),
    {
        Sample { offset_ms: wire.0, latency: Latency::from_wire(wire.1) }
    }
}

/// All samples of a sequence are well formed.
pub open spec fn all_wf(samples: Seq<Sample>) -> bool {
    forall|i: int| 0 <= i < samples.len() ==> (#[trigger] samples[i]).wf()
}

/// The sample sequence as written to a report file.
pub open spec fn wire_of(samples: Seq<Sample>) -> Seq<(u64, u32)> {
    samples.map_values(|s: Sample| s.wire())
}

/// The sample sequence that a report file's list stands for.
pub open spec fn samples_of(wire: Seq<(u64, u32)>) -> Seq<Sample> {
    wire.map_values(|w: (u64, u32)| Sample::of_wire(w))
}

/// Encodes a sample sequence for a report file, in order.
pub fn samples_to_wire(samples: &Vec<Sample>) -> (wire: Vec<(u64, u32)>)
    ensures
        wire@ == wire_of(samples@),
{
    let mut wire: Vec<(u64, u32)> = Vec::new();
    let mut i: usize = 0;
    while i < samples.len()
        invariant
            i <= samples.len(),
            wire@ == wire_of(samples@.take(i as int)),
        decreases samples.len() - i,
    {
        wire.push(samples[i].to_wire());
        i = i + 1;
        assert(wire@ =~= wire_of(samples@.take(i as int)));
    }
    assert(samples@.take(i as int) =~= samples@);
    wire
}

/// Decodes the sample list of a report file, in order.
pub fn samples_from_wire(wire: &Vec<(u64, u32)>) -> (samples: Vec<Sample>)
    ensures
        samples@ == samples_of(wire@),
        all_wf(samples@),
{
    let mut samples: Vec<Sample> = Vec::new();
    let mut i: usize = 0;
    while i < wire.len()
        invariant
            i <= wire.len(),
            samples@ == samples_of(wire@.take(i as int)),
            all_wf(samples@),
        decreases wire.len() - i,
    {
        samples.push(Sample::from_wire(wire[i]));
        i = i + 1;
        assert(samples@ =~= samples_of(wire@.take(i as int)));
    }
    assert(wire@.take(i as int) =~= wire@);
    samples
}

/// Writing a sample sequence to a report file and reading it back gives the
/// same sequence: same order, same offsets, same outcomes.
pub proof fn lemma_wire_round_trip(samples: Seq<Sample>)
    requires
        all_wf(samples),
    ensures
        samples_of(wire_of(samples)) == samples,
{
    assert forall|i: int| 0 <= i < samples.len() implies #[trigger] samples_of(wire_of(samples))[i]
        == samples[i] by {
        assert(samples[i].wf());
    }
    assert(samples_of(wire_of(samples)) =~= samples);
}

/// Reading a report file's sample list and writing it again gives the same
/// numbers.
pub proof fn lemma_wire_stable(wire: Seq<(u64, u32)>)
    ensures
        wire_of(samples_of(wire)) == wire,
{
    assert(wire_of(samples_of(wire)) =~= wire);
}

} // verus!
