//! The run coordinator: one prober per target, all on one schedule, and one
//! report of what they recorded, in target order.

use crate::prober::{FinishedProber, Prober, ProberView, Progress};
use crate::report::{Report, TargetRun, TargetRunView};
use crate::schedule::{on_schedule, Schedule};
use crate::stamp::{rfc3339_text, LocalStamp};
use crate::target::Target;
use vstd::prelude::*;

verus! {

/// The settings of a run.
#[derive(Clone, Copy, Debug, PartialEq, Eq)]
pub struct RunConfig {
    /// Interval between two probes of one target in milliseconds.
    pub interval_ms: u32,
    /// Duration of the run in seconds.
    pub duration_s: u32,
    /// Time allowed for one probe in milliseconds.
    pub timeout_ms: u32,
    /// Show the introduction.
    pub display_intro: bool,
    /// Show the summary table.
    pub display_summary: bool,
    /// Show a line per probe.
    pub display_pings: bool,
}

impl Default for RunConfig {
    /// A probe every 500 ms for 30 s with a timeout of 1000 ms; introduction
    /// and summary shown, single probes not.
    fn default() -> (config: RunConfig)
        ensures
            config == (RunConfig {
                interval_ms: 500,
                duration_s: 30,
                timeout_ms: 1000,
                display_intro: true,
                display_summary: true,
                display_pings: false,
            }),
    {
        RunConfig {
            interval_ms: 500,
            duration_s: 30,
            timeout_ms: 1000,
            display_intro: true,
            display_summary: true,
            display_pings: false,
        }
    }
}

impl RunConfig {
    /// The schedule that all probers of the run share.
    pub open spec fn schedule_of(self) -> Schedule {
        Schedule { interval_ms: self.interval_ms, duration_s: self.duration_s }
    }

    /// The schedule that all probers of the run share.
    pub fn schedule(&self) -> (schedule: Schedule)
        ensures
            schedule == self.schedule_of(),
    {
        Schedule { interval_ms: self.interval_ms, duration_s: self.duration_s }
    }
}

/// What a finished prober hands to the report.
pub open spec fn finished_runs(finished: Seq<FinishedProber>) -> Seq<TargetRunView> {
    finished.map_values(
        |done: FinishedProber|
            TargetRunView { target: done@.progress.target, samples: done@.progress.samples },
    )
}

/// Sets up one prober per target, in target order. All share the schedule
/// of `config`, and none has recorded anything yet.
pub fn start_probers(config: &RunConfig, targets: &Vec<Target>) -> (probers: Vec<Prober>)
    ensures
        probers.len() == targets.len(),
        forall|i: int|
            0 <= i < probers.len() ==> (#[trigger] probers[i])@ == (ProberView {
                progress: Progress {
                    target: targets[i]@,
                    schedule: config.schedule_of(),
                    samples: Seq::empty(),
                },
                not_before_ns: 0,
            }),
        forall|i: int| 0 <= i < probers.len() ==> (#[trigger] probers[i])@.wf(),
{
    let schedule = config.schedule();
    let mut probers: Vec<Prober> = Vec::new();
    let mut i: usize = 0;
    while i < targets.len()
        invariant
            i <= targets.len(),
            probers.len() == i,
            schedule == config.schedule_of(),
            forall|k: int|
                0 <= k < i ==> (#[trigger] probers[k])@ == (ProberView {
                    progress: Progress {
                        target: targets[k]@,
                        schedule: schedule,
                        samples: Seq::empty(),
                    },
                    not_before_ns: 0,
                }),
            forall|k: int| 0 <= k < i ==> (#[trigger] probers[k])@.wf(),
        decreases targets.len() - i,
    {
        probers.push(Prober::new(targets[i].duplicate(), schedule));
        i = i + 1;
    }
    probers
}

/// Builds the report of a run from its finished probers: the start time in
/// RFC 3339 notation, the configured duration and interval, and what each
/// prober recorded, in the order in which the probers are given.
pub fn assemble_report(config: &RunConfig, start: &LocalStamp, finished: Vec<FinishedProber>) -> (report:
    Report)
    ensures
        report@.start_time == rfc3339_text(
            start@.year,
            start@.month,
            start@.day,
            start@.hour,
            start@.minute,
            start@.second,
            start@.nanosecond,
            start@.offset_seconds,
        ),
        report@.duration == config.duration_s,
        report@.interval == config.interval_ms,
        report@.targets == finished_runs(finished@),
        forall|i: int|
            0 <= i < finished.len() ==> on_schedule(
                report@.targets[i].samples,
                (#[trigger] finished[i])@.progress.schedule,
            ),
{
    let ghost all = finished@;
    let mut rest = finished;
    let mut runs: Vec<TargetRun> = Vec::new();
    while rest.len() > 0
        invariant
            runs.len() + rest.len() == all.len(),
            forall|k: int|
                0 <= k < runs.len() ==> (#[trigger] runs[k])@ == finished_runs(all)[k],
            forall|k: int| 0 <= k < rest.len() ==> #[trigger] rest[k] == all[runs.len() + k],
            forall|k: int|
                0 <= k < runs.len() ==> on_schedule(
                    (#[trigger] runs[k]).samples@,
                    all[k]@.progress.schedule,
                ),
        decreases rest.len(),
    {
        let done = rest.remove(0);
        runs.push(done.into_run());
    }
    let report = Report {
        start_time: start.to_rfc3339(),
        duration: config.duration_s,
        interval: config.interval_ms,
        targets: runs,
    };
    assert(report@.targets =~= finished_runs(all));
    report
}

} // verus!
