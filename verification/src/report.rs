//! The record of a run: the samples of each target, in target order.

use crate::sample::Sample;
use crate::target::{Target, TargetView};
use vstd::prelude::*;

verus! {

/// One target with the ordered samples taken of it.
#[derive(Clone, Debug, PartialEq, Eq)]
pub struct TargetRun {
    pub target: Target,
    pub samples: Vec<Sample>,
}

/// The mathematical value of a [`TargetRun`].
pub struct TargetRunView {
    pub target: TargetView,
    pub samples: Seq<Sample>,
}

impl View for TargetRun {
    type V = TargetRunView;

    open spec fn view(&self) -> TargetRunView {
        TargetRunView { target: self.target@, samples: self.samples@ }
    }
}

/// The views of a list of target runs, in order.
pub open spec fn run_views(runs: Seq<TargetRun>) -> Seq<TargetRunView> {
    runs.map_values(|run: TargetRun| run@)
}

/// A finished run: when it started, its configured duration and interval,
/// and what was recorded of each target, in the order the targets were given.
#[derive(Clone, Debug, PartialEq, Eq)]
pub struct Report {
    /// Start of the run as local time with its offset from UTC.
    pub start_time: String,
    /// Configured duration of the run in seconds.
    pub duration: u32,
    /// Configured interval between two probes of one target in milliseconds.
    pub interval: u32,
    pub targets: Vec<TargetRun>,
}

/// The mathematical value of a [`Report`].
pub struct ReportView {
    pub start_time: Seq<char>,
    pub duration: u32,
    pub interval: u32,
    pub targets: Seq<TargetRunView>,
}

impl View for Report {
    type V = ReportView;

    open spec fn view(&self) -> ReportView {
        ReportView {
            start_time: self.start_time@,
            duration: self.duration,
            interval: self.interval,
            targets: run_views(self.targets@),
        }
    }
}

} // verus!
