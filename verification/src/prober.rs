//! The prober: drives one target through its probing schedule.
//!
//! A prober decides; its caller acts. At the top of each round the caller
//! reads the clock and hands the reading to [`Prober::begin_tick`], which
//! either ends the run or opens a tick. The caller then sends one probe,
//! reads the clock again and hands the outcome to [`ProbeInFlight::record`],
//! which stores the sample and says how long to sleep before the next round.
//! A tick whose probe overran the interval is still recorded, and the next
//! tick follows at once: the schedule drifts forward and never catches up.

use crate::report::{TargetRun, TargetRunView};
use crate::sample::{Latency, Sample};
use crate::schedule::{on_schedule, Schedule, NANOS_PER_MILLI};
use crate::target::{Target, TargetView};
use vstd::prelude::*;

verus! {

/// What a prober holds whatever state it is in.
pub struct Progress {
    pub target: TargetView,
    pub schedule: Schedule,
    pub samples: Seq<Sample>,
}

impl Progress {
    /// The samples recorded so far follow the schedule.
    pub open spec fn wf(self) -> bool {
        on_schedule(self.samples, self.schedule)
    }

    /// The same progress with one more sample.
    pub open spec fn with(self, sample: Sample) -> Progress {
        Progress { samples: self.samples.push(sample), ..self }
    }
}

/// A prober at the top of a round.
pub struct ProberView {
    pub progress: Progress,
    /// No later clock reading is earlier than this: the clock does not run
    /// backwards and a sleep does not end early.
    pub not_before_ns: nat,
}

impl ProberView {
    /// The samples follow the schedule, and the next tick can begin neither
    /// ahead of the ideal schedule nor less than one interval after the
    /// latest one.
    pub open spec fn wf(self) -> bool {
        let samples = self.progress.samples;
        let interval = self.progress.schedule.interval_ms;
        &&& self.progress.wf()
        &&& samples.len() * interval <= self.not_before_ns / (NANOS_PER_MILLI as nat)
        &&& samples.len() > 0 ==> samples.last().offset_ms + interval <= self.not_before_ns / (
        NANOS_PER_MILLI as nat)
    }
}

/// A prober whose probe is on its way.
pub struct InFlightView {
    pub progress: Progress,
    /// The clock reading at which this tick began.
    pub tick_ns: nat,
}

impl InFlightView {
    /// Offset of this tick: whole milliseconds since the start of the run.
    pub open spec fn offset_ms(self) -> nat {
        self.tick_ns / (NANOS_PER_MILLI as nat)
    }

    /// The sample that this tick yields for what the transport reports.
    pub open spec fn sample(self, reply: Option<u32>) -> Sample {
        Sample { offset_ms: self.offset_ms() as u64, latency: Latency::of_reply(reply) }
    }

    /// The samples follow the schedule, and so does the tick that has
    /// begun: before the end of the run, not ahead of the ideal schedule and
    /// not before the latest sample.
    pub open spec fn wf(self) -> bool {
        let samples = self.progress.samples;
        &&& self.progress.wf()
        &&& self.tick_ns < self.progress.schedule.end_ns()
        &&& samples.len() * self.progress.schedule.interval_ms <= self.offset_ms()
        &&& samples.len() > 0 ==> samples.last().offset_ms <= self.offset_ms()
    }
}

/// A prober whose run has ended.
pub struct FinishedView {
    pub progress: Progress,
    /// The clock reading that ended the run.
    pub finished_at_ns: nat,
}

impl FinishedView {
    /// How far behind the ideal schedule the run ended, in milliseconds: on
    /// the ideal schedule the round after `n` ticks begins `n` intervals
    /// after the start.
    pub open spec fn lag_ms(self) -> int {
        self.finished_at_ns / (NANOS_PER_MILLI as nat) - self.progress.samples.len()
            * self.progress.schedule.interval_ms
    }

    /// The samples follow the schedule, and the run ended when its time was
    /// up, not ahead of the ideal schedule.
    pub open spec fn wf(self) -> bool {
        &&& self.progress.wf()
        &&& self.finished_at_ns >= self.progress.schedule.end_ns()
        &&& self.lag_ms() >= 0
    }
}

/// A prober at the top of a round, about to learn the time.
pub struct Prober {
    target: Target,
    schedule: Schedule,
    samples: Vec<Sample>,
    not_before_ns: u64,
}

/// A prober that has opened a tick and waits for the probe's outcome.
pub struct ProbeInFlight {
    target: Target,
    schedule: Schedule,
    samples: Vec<Sample>,
    tick_ns: u64,
}

/// A prober whose run has ended.
pub struct FinishedProber {
    target: Target,
    schedule: Schedule,
    samples: Vec<Sample>,
    finished_at_ns: u64,
}

/// What a prober decides at the top of a round.
pub enum Tick {
    /// The run goes on: send one probe.
    Probe(ProbeInFlight),
    /// The time is up.
    Finished(FinishedProber),
}

/// What a prober decides once a probe's outcome is known.
pub struct Recorded {
    /// The prober, back at the top of a round.
    pub prober: Prober,
    /// How long to sleep before the next round, in nanoseconds; zero means
    /// no sleep at all.
    pub sleep_ns: u64,
}

impl View for Prober {
    type V = ProberView;

    closed spec fn view(&self) -> ProberView {
        ProberView {
            progress: Progress {
                target: self.target@,
                schedule: self.schedule,
                samples: self.samples@,
            },
            not_before_ns: self.not_before_ns as nat,
        }
    }
}

impl View for ProbeInFlight {
    type V = InFlightView;

    closed spec fn view(&self) -> InFlightView {
        InFlightView {
            progress: Progress {
                target: self.target@,
                schedule: self.schedule,
                samples: self.samples@,
            },
            tick_ns: self.tick_ns as nat,
        }
    }
}

impl View for FinishedProber {
    type V = FinishedView;

    closed spec fn view(&self) -> FinishedView {
        FinishedView {
            progress: Progress {
                target: self.target@,
                schedule: self.schedule,
                samples: self.samples@,
            },
            finished_at_ns: self.finished_at_ns as nat,
        }
    }
}

impl Prober {
    #[verifier::type_invariant]
    spec fn inv(self) -> bool {
        self@.wf()
    }

    /// A prober for `target` that has recorded nothing yet.
    pub fn new(target: Target, schedule: Schedule) -> (prober: Prober)
        ensures
            prober@.wf(),
            prober@.progress == (Progress {
                target: target@,
                schedule: schedule,
                samples: Seq::empty(),
            }),
            prober@.not_before_ns == 0,
    {
        let samples: Vec<Sample> = Vec::new();
        assert(samples@.len() * schedule.interval_ms == 0);
        Prober { target, schedule, samples, not_before_ns: 0 }
    }

    /// The earliest clock reading that [`Prober::begin_tick`] accepts.
    pub fn not_before_ns(&self) -> (ns: u64)
        ensures
            ns == self@.not_before_ns,
    {
        self.not_before_ns
    }

    /// Top of a round: with the clock at `now_ns`, the run ends if its time
    /// is up, and otherwise a tick begins at `now_ns`.
    pub fn begin_tick(self, now_ns: u64) -> (tick: Tick)
        requires
            now_ns >= self@.not_before_ns,
        ensures
            match tick {
                Tick::Probe(probe) => {
                    &&& now_ns < self@.progress.schedule.end_ns()
                    &&& probe@ == (InFlightView { progress: self@.progress, tick_ns: now_ns as nat })
                    &&& probe@.wf()
                },
                Tick::Finished(done) => {
                    &&& now_ns >= self@.progress.schedule.end_ns()
                    &&& done@ == (FinishedView {
                        progress: self@.progress,
                        finished_at_ns: now_ns as nat,
                    })
                    &&& done@.wf()
                },
            },
    {
        proof {
            use_type_invariant(&self);
        }
        let Prober { target, schedule, samples, not_before_ns: _ } = self;
        if now_ns >= schedule.end_nanos() {
            Tick::Finished(FinishedProber { target, schedule, samples, finished_at_ns: now_ns })
        } else {
            Tick::Probe(ProbeInFlight { target, schedule, samples, tick_ns: now_ns })
        }
    }
}

impl ProbeInFlight {
    #[verifier::type_invariant]
    spec fn inv(self) -> bool {
        self@.wf()
    }

    /// The clock reading at which this tick began.
    pub fn tick_ns(&self) -> (ns: u64)
        ensures
            ns == self@.tick_ns,
    {
        self.tick_ns
    }

    /// Offset of this tick in whole milliseconds since the start of the run.
    pub fn offset_ms(&self) -> (ms: u64)
        ensures
            ms == self@.offset_ms(),
    {
        self.tick_ns / NANOS_PER_MILLI
    }

    /// The target being probed.
    pub fn target(&self) -> (target: &Target)
        ensures
            target@ == self@.progress.target,
    {
        &self.target
    }

    /// End of a tick: stores the sample for what the transport reported
    /// (`None` for a timeout or an error) and, with the clock at `now_ns`,
    /// says how long to sleep so that the next tick begins one interval
    /// after this one began.
    pub fn record(self, reply: Option<u32>, now_ns: u64) -> (recorded: Recorded)
        requires
            now_ns >= self@.tick_ns,
        ensures
            recorded.prober@.progress == self@.progress.with(self@.sample(reply)),
            recorded.sleep_ns == self@.progress.schedule.remaining_ns(self@.tick_ns, now_ns as nat),
            recorded.prober@.not_before_ns == now_ns + recorded.sleep_ns,
            recorded.prober@.wf(),
    {
        proof {
            use_type_invariant(&self);
        }
        let ghost sample = self@.sample(reply);
        let offset_ms: u64 = self.offset_ms();
        let ProbeInFlight { target, schedule, mut samples, tick_ns } = self;
        let interval_ns: u64 = schedule.interval_nanos();
        let wake_ns: u64 = tick_ns + interval_ns;
        let sleep_ns: u64 = if wake_ns > now_ns { wake_ns - now_ns } else { 0 };
        let ghost old_samples = samples@;
        samples.push(Sample { offset_ms, latency: Latency::from_reply(reply) });
        let not_before_ns: u64 = now_ns + sleep_ns;
        proof {
            let n = old_samples.len();
            let interval = schedule.interval_ms;
            assert(samples@ == old_samples.push(sample));
            assert((n + 1) * interval == n * interval + interval) by (nonlinear_arith);
            assert(not_before_ns / NANOS_PER_MILLI >= offset_ms + interval);
            assert(on_schedule(samples@, schedule)) by {
                assert forall|i: int, j: int| 0 <= i <= j < samples@.len() implies (
                #[trigger] samples@[i]).offset_ms <= (#[trigger] samples@[j]).offset_ms by {
                    if j == n && i < n {
                        assert(old_samples[i].offset_ms <= old_samples[n - 1].offset_ms);
                    }
                }
                assert forall|i: int| 0 <= i < samples@.len() implies (
                #[trigger] samples@[i]).offset_ms >= i * schedule.interval_ms by {
                    if i < n {
                        assert(old_samples[i].offset_ms >= i * schedule.interval_ms);
                    }
                }
            }
        }
        let prober = Prober { target, schedule, samples, not_before_ns };
        Recorded { prober, sleep_ns }
    }
}

impl FinishedProber {
    #[verifier::type_invariant]
    spec fn inv(self) -> bool {
        self@.wf()
    }

    /// The clock reading that ended the run.
    pub fn finished_at_ns(&self) -> (ns: u64)
        ensures
            ns == self@.finished_at_ns,
    {
        self.finished_at_ns
    }

    /// The target with the samples taken of it.
    pub fn into_run(self) -> (run: TargetRun)
        ensures
            run@ == (TargetRunView {
                target: self@.progress.target,
                samples: self@.progress.samples,
            }),
            on_schedule(run.samples@, self@.progress.schedule),
    {
        proof {
            use_type_invariant(&self);
        }
        TargetRun { target: self.target, samples: self.samples }
    }
}

/// Within one target's sequence the offsets never decrease, and none lies
/// beyond the duration of the run.
pub proof fn lemma_offsets_in_order(samples: Seq<Sample>, schedule: Schedule)
    requires
        on_schedule(samples, schedule),
    ensures
        forall|i: int, j: int|
            0 <= i <= j < samples.len() ==> (#[trigger] samples[i]).offset_ms <= (
            #[trigger] samples[j]).offset_ms,
        forall|i: int|
            0 <= i < samples.len() ==> (#[trigger] samples[i]).offset_ms <= schedule.duration_ms(),
{
}

/// A prober never records more than `floor(duration / interval) + 1`
/// samples, however its probes and sleeps fall.
pub proof fn lemma_sample_count_at_most(samples: Seq<Sample>, schedule: Schedule)
    requires
        on_schedule(samples, schedule),
        schedule.interval_ms > 0,
    ensures
        samples.len() <= schedule.duration_ms() / (schedule.interval_ms as nat) + 1,
{
    let n = samples.len() as int;
    let interval = schedule.interval_ms as int;
    let duration = schedule.duration_ms() as int;
    if n > 0 {
        assert(samples[n - 1].offset_ms >= (n - 1) * interval);
        assert(n - 1 <= duration / interval) by (nonlinear_arith)
            requires
                (n - 1) * interval < duration,
                interval > 0,
                n >= 1,
        ;
    }
}

/// How many samples a finished run holds. With `ideal` for
/// `floor(duration / interval)`: never more than `ideal + 1`, and short of
/// `ideal` by no more than the whole intervals that the run ended behind the
/// ideal schedule. So a run that ended less than two intervals behind holds
/// `ideal` samples, give or take one, and a run that ended less than one
/// interval behind holds `ideal` or `ideal + 1`.
pub proof fn lemma_sample_count(done: FinishedView)
    requires
        done.wf(),
        done.progress.schedule.interval_ms > 0,
    ensures
        ({
            let interval = done.progress.schedule.interval_ms as int;
            let ideal = done.progress.schedule.duration_ms() as int / interval;
            let count = done.progress.samples.len() as int;
            &&& count <= ideal + 1
            &&& count >= ideal - done.lag_ms() / interval
            &&& done.lag_ms() < 2 * interval ==> ideal - 1 <= count
            &&& done.lag_ms() < interval ==> ideal <= count
        }),
{
    let schedule = done.progress.schedule;
    let n = done.progress.samples.len() as int;
    let interval = schedule.interval_ms as int;
    let duration = schedule.duration_ms() as int;
    let lag = done.lag_ms();
    let behind = lag / interval;
    lemma_sample_count_at_most(done.progress.samples, schedule);
    assert(n * interval + lag >= duration);
    assert(behind >= 0 && lag < (behind + 1) * interval) by (nonlinear_arith)
        requires
            behind == lag / interval,
            lag >= 0,
            interval > 0,
    ;
    assert((n + behind + 1) * interval == n * interval + (behind + 1) * interval)
        by (nonlinear_arith);
    assert(duration / interval <= n + behind) by (nonlinear_arith)
        requires
            duration < (n + behind + 1) * interval,
            interval > 0,
            duration >= 0,
            n + behind >= 0,
    ;
    assert(lag < 2 * interval ==> behind <= 1) by (nonlinear_arith)
        requires
            behind == lag / interval,
            lag >= 0,
            interval > 0,
    ;
    assert(lag < interval ==> behind == 0) by (nonlinear_arith)
        requires
            behind == lag / interval,
            lag >= 0,
            interval > 0,
    ;
}

} // verus!
