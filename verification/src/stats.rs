//! Latency statistics of one target: packet loss, and the least, median,
//! 95th-percentile and greatest latency among the answered probes.

use crate::report::TargetRun;
use crate::sample::{Latency, Sample};
use vstd::prelude::*;
use vstd::relations::{sorted_by, total_ordering};
use vstd::seq_lib::{lemma_multiset_commutative, lemma_sorted_unique};

verus! {

/// The order by which latencies are sorted.
pub open spec fn ascending() -> spec_fn(u32, u32) -> bool {
    |a: u32, b: u32| a <= b
}

/// No entry is greater than a later one.
pub open spec fn is_ascending(s: Seq<u32>) -> bool {
    forall|i: int, j: int| 0 <= i < j < s.len() ==> s[i] <= s[j]
}

/// The latencies of the answered samples, in the order of the samples.
pub open spec fn answered_latencies(samples: Seq<Sample>) -> Seq<u32>
    decreases samples.len(),
{
    if samples.len() == 0 {
        Seq::empty()
    } else {
        let before = answered_latencies(samples.drop_last());
        match samples.last().latency {
            Latency::Answered(ms) => before.push(ms),
            Latency::TimedOut => before,
        }
    }
}

/// The latencies of the answered samples in ascending order.
pub open spec fn sorted_latencies(samples: Seq<Sample>) -> Seq<u32> {
    answered_latencies(samples).sort_by(ascending())
}

/// Position of the 95th percentile among `k` sorted latencies:
/// `floor(0.95 * k)`, kept within the valid positions `0 .. k - 1`.
pub open spec fn p95_index(k: nat) -> nat {
    let i = k * 95 / 100;
    if 0 < k <= i {
        (k - 1) as nat
    } else {
        i as nat
    }
}

/// Least, median, 95th-percentile and greatest latency. The median of an
/// even number of latencies is the upper of the two middle ones.
#[derive(Clone, Copy, Debug, PartialEq, Eq)]
pub struct LatencySummary {
    pub min: u32,
    pub median: u32,
    pub p95: u32,
    pub max: u32,
}

/// The summary of latencies given in ascending order; none if there are none.
pub open spec fn summary_of(sorted: Seq<u32>) -> Option<LatencySummary> {
    if sorted.len() == 0 {
        None
    } else {
        Some(
            LatencySummary {
                min: sorted[0],
                median: sorted[sorted.len() as int / 2],
                p95: sorted[p95_index(sorted.len()) as int],
                max: sorted[sorted.len() - 1],
            },
        )
    }
}

/// What the statistics of a target say.
pub struct StatsView {
    /// Number of probes sent.
    pub sample_count: nat,
    /// Number of probes that were answered.
    pub answered: nat,
    /// Summary of the answered latencies; none where nothing was answered.
    pub latency: Option<LatencySummary>,
}

impl StatsView {
    /// Number of probes that were not answered.
    pub open spec fn lost(self) -> nat {
        (self.sample_count - self.answered) as nat
    }

    /// The counts are consistent and the summary is ordered.
    pub open spec fn wf(self) -> bool {
        &&& self.answered <= self.sample_count
        &&& self.latency is Some <==> self.answered > 0
        &&& self.latency matches Some(l) ==> l.min <= l.median <= l.p95 <= l.max
    }
}

/// The statistics of a sample sequence.
pub open spec fn stats_of(samples: Seq<Sample>) -> StatsView {
    StatsView {
        sample_count: samples.len(),
        answered: answered_latencies(samples).len(),
        latency: summary_of(sorted_latencies(samples)),
    }
}

/// Packet loss in hundredths of a percent, rounded to the nearest (a half
/// rounds up), of `lost` unanswered probes among `total`.
pub open spec fn loss_hundredths_of(lost: nat, total: nat) -> nat
    recommends
        0 < total,
        lost <= total,
{
    (20000 * lost + total) / (2 * total)
}

/// Statistics of one target. Packet loss is held exactly, as the number of
/// unanswered probes among the probes sent.
#[derive(Clone, Copy, Debug, PartialEq, Eq)]
pub struct Stats {
    sample_count: usize,
    answered: usize,
    latency: Option<LatencySummary>,
}

impl View for Stats {
    type V = StatsView;

    closed spec fn view(&self) -> StatsView {
        StatsView {
            sample_count: self.sample_count as nat,
            answered: self.answered as nat,
            latency: self.latency,
        }
    }
}

impl Stats {
    #[verifier::type_invariant]
    spec fn inv(self) -> bool {
        self@.wf()
    }

    /// Number of probes sent.
    pub fn sample_count(&self) -> (n: usize)
        ensures
            n == self@.sample_count,
    {
        self.sample_count
    }

    /// Number of probes that were answered.
    pub fn answered(&self) -> (k: usize)
        ensures
            k == self@.answered,
    {
        self.answered
    }

    /// Number of probes that were not answered.
    pub fn lost(&self) -> (lost: usize)
        ensures
            lost == self@.lost(),
            lost <= self@.sample_count,
    {
        proof {
            use_type_invariant(self);
        }
        self.sample_count - self.answered
    }

    /// Summary of the answered latencies; none where nothing was answered.
    pub fn latency(&self) -> (summary: Option<LatencySummary>)
        ensures
            summary == self@.latency,
    {
        self.latency
    }

    /// Packet loss in hundredths of a percent, from 0 to 10000; none where
    /// no probe was sent.
    pub fn loss_hundredths(&self) -> (loss: Option<u32>)
        ensures
            self@.sample_count == 0 <==> loss is None,
            loss matches Some(h) ==> h == loss_hundredths_of(self@.lost(), self@.sample_count)
                && h <= 10000,
    {
        proof {
            use_type_invariant(self);
        }
        if self.sample_count == 0 {
            None
        } else {
            let total: u128 = self.sample_count as u128;
            let lost: u128 = (self.sample_count - self.answered) as u128;
            let h: u128 = (20000 * lost + total) / (2 * total);
            assert(h <= 10000) by (nonlinear_arith)
                requires
                    h == (20000 * lost + total) / (2 * total),
                    lost <= total,
                    0 < total,
            ;
            Some(h as u32)
        }
    }
}

/// `is_ascending` is sortedness by the order `ascending`, which is total.
proof fn lemma_ascending_order(s: Seq<u32>)
    ensures
        total_ordering(ascending()),
        is_ascending(s) <==> sorted_by(s, ascending()),
{
    let leq = ascending();
    assert(forall|a: u32, b: u32| #[trigger] leq(a, b) <==> a <= b);
    if is_ascending(s) {
        assert forall|i: int, j: int| 0 <= i < j < s.len() implies #[trigger] leq(s[i], s[j]) by {}
    }
    if sorted_by(s, leq) {
        assert forall|i: int, j: int| 0 <= i < j < s.len() implies s[i] <= s[j] by {
            assert(leq(s[i], s[j]));
        }
    }
}

/// Any ascending arrangement of the answered latencies is the sorted one.
pub proof fn lemma_sorted_latencies_unique(samples: Seq<Sample>, sorted: Seq<u32>)
    requires
        is_ascending(sorted),
        sorted.to_multiset() == answered_latencies(samples).to_multiset(),
    ensures
        sorted == sorted_latencies(samples),
{
    let answered = answered_latencies(samples);
    lemma_ascending_order(sorted);
    lemma_ascending_order(sorted_latencies(samples));
    answered.lemma_sort_by_ensures(ascending());
    lemma_sorted_unique(sorted, sorted_latencies(samples), ascending());
}

/// The sorted latencies are ascending and are the answered ones, each as
/// often as it occurs.
pub proof fn lemma_sorted_latencies(samples: Seq<Sample>)
    ensures
        is_ascending(sorted_latencies(samples)),
        sorted_latencies(samples).to_multiset() == answered_latencies(samples).to_multiset(),
        sorted_latencies(samples).len() == answered_latencies(samples).len(),
{
    let answered = answered_latencies(samples);
    lemma_ascending_order(sorted_latencies(samples));
    answered.lemma_sort_by_ensures(ascending());
    answered.to_multiset_ensures();
    sorted_latencies(samples).to_multiset_ensures();
}

fn collect_answered(samples: &Vec<Sample>) -> (latencies: Vec<u32>)
    ensures
        latencies@ == answered_latencies(samples@),
{
    let mut latencies: Vec<u32> = Vec::new();
    let mut i: usize = 0;
    while i < samples.len()
        invariant
            i <= samples.len(),
            latencies@ == answered_latencies(samples@.take(i as int)),
        decreases samples.len() - i,
    {
        proof {
            let next = samples@.take(i + 1);
            assert(next.drop_last() =~= samples@.take(i as int));
            assert(next.last() == samples@[i as int]);
        }
        match samples[i].latency {
            Latency::Answered(ms) => {
                latencies.push(ms);
            },
            Latency::TimedOut => {},
        }
        i = i + 1;
    }
    assert(samples@.take(i as int) =~= samples@);
    latencies
}

fn merge(left: &Vec<u32>, right: &Vec<u32>) -> (merged: Vec<u32>)
    requires
        is_ascending(left@),
        is_ascending(right@),
        left.len() + right.len() <= usize::MAX,
    ensures
        is_ascending(merged@),
        merged@.to_multiset() == left@.to_multiset().add(right@.to_multiset()),
{
    broadcast use vstd::multiset::group_multiset_axioms;

    let mut merged: Vec<u32> = Vec::new();
    let mut i: usize = 0;
    let mut j: usize = 0;
    proof {
        let none = Seq::<u32>::empty();
        assert(left@.take(0) =~= none);
        assert(right@.take(0) =~= none);
        assert(merged@ =~= none);
        lemma_multiset_commutative(none, none);
        assert(none + none =~= none);
    }
    while i < left.len() || j < right.len()
        invariant
            i <= left.len(),
            j <= right.len(),
            is_ascending(left@),
            is_ascending(right@),
            is_ascending(merged@),
            merged@.to_multiset() == left@.take(i as int).to_multiset().add(
                right@.take(j as int).to_multiset(),
            ),
            forall|k: int| 0 <= k < merged.len() && i < left.len() ==> merged[k] <= left[i as int],
            forall|k: int| 0 <= k < merged.len() && j < right.len() ==> merged[k] <= right[j as int],
        decreases left.len() - i + right.len() - j,
    {
        let take_left: bool = if j >= right.len() {
            true
        } else if i >= left.len() {
            false
        } else {
            left[i] <= right[j]
        };
        let ghost before = merged@;
        if take_left {
            let x: u32 = left[i];
            merged.push(x);
            proof {
                assert(left@.take(i + 1) =~= left@.take(i as int).push(x));
                left@.take(i as int).to_multiset_ensures();
                before.to_multiset_ensures();
                assert(merged@.to_multiset() =~= left@.take(i + 1).to_multiset().add(
                    right@.take(j as int).to_multiset(),
                ));
            }
            i = i + 1;
        } else {
            let x: u32 = right[j];
            merged.push(x);
            proof {
                assert(right@.take(j + 1) =~= right@.take(j as int).push(x));
                right@.take(j as int).to_multiset_ensures();
                before.to_multiset_ensures();
                assert(merged@.to_multiset() =~= left@.take(i as int).to_multiset().add(
                    right@.take(j + 1).to_multiset(),
                ));
            }
            j = j + 1;
        }
    }
    assert(left@.take(i as int) =~= left@);
    assert(right@.take(j as int) =~= right@);
    merged
}

fn sort_range(v: &Vec<u32>, lo: usize, hi: usize) -> (sorted: Vec<u32>)
    requires
        lo <= hi <= v.len(),
    ensures
        is_ascending(sorted@),
        sorted@.to_multiset() == v@.subrange(lo as int, hi as int).to_multiset(),
        sorted.len() == hi - lo,
    decreases hi - lo,
{
    let ghost range = v@.subrange(lo as int, hi as int);
    if hi - lo == 0 {
        let sorted: Vec<u32> = Vec::new();
        assert(sorted@ =~= range);
        sorted
    } else if hi - lo == 1 {
        let mut sorted: Vec<u32> = Vec::new();
        sorted.push(v[lo]);
        assert(sorted@ =~= range);
        sorted
    } else {
        let mid: usize = lo + (hi - lo) / 2;
        let left = sort_range(v, lo, mid);
        let right = sort_range(v, mid, hi);
        let sorted = merge(&left, &right);
        proof {
            let a = v@.subrange(lo as int, mid as int);
            let b = v@.subrange(mid as int, hi as int);
            assert(a + b =~= range);
            lemma_multiset_commutative(a, b);
            sorted@.to_multiset_ensures();
            range.to_multiset_ensures();
        }
        sorted
    }
}

/// Sorts latencies into ascending order.
pub fn sort_latencies(latencies: &Vec<u32>) -> (sorted: Vec<u32>)
    ensures
        sorted@ == latencies@.sort_by(ascending()),
        is_ascending(sorted@),
        sorted.len() == latencies.len(),
{
    let sorted = sort_range(latencies, 0, latencies.len());
    proof {
        assert(latencies@.subrange(0, latencies.len() as int) =~= latencies@);
        lemma_ascending_order(sorted@);
        lemma_ascending_order(latencies@.sort_by(ascending()));
        latencies@.lemma_sort_by_ensures(ascending());
        lemma_sorted_unique(sorted@, latencies@.sort_by(ascending()), ascending());
    }
    sorted
}

/// Picks the summary out of latencies given in ascending order.
pub fn summarize(sorted: &Vec<u32>) -> (summary: Option<LatencySummary>)
    ensures
        summary == summary_of(sorted@),
{
    let k: usize = sorted.len();
    if k == 0 {
        None
    } else {
        let scaled: u128 = (k as u128) * 95 / 100;
        let p95: usize = if scaled >= k as u128 { k - 1 } else { scaled as usize };
        Some(
            LatencySummary {
                min: sorted[0],
                median: sorted[k / 2],
                p95: sorted[p95],
                max: sorted[k - 1],
            },
        )
    }
}

/// The 95th-percentile position is a valid one for any `k >= 1`; with a
/// single latency it is that latency.
pub proof fn lemma_p95_index_in_range(k: nat)
    requires
        k >= 1,
    ensures
        p95_index(k) <= k - 1,
        p95_index(k) == k * 95 / 100,
        k / 2 <= p95_index(k),
        k == 1 ==> p95_index(k) == 0,
{
}

/// Wherever a probe was answered: `min <= median <= p95 <= max`.
pub proof fn lemma_summary_ordered(samples: Seq<Sample>)
    ensures
        summary_of(sorted_latencies(samples)) is Some <==> answered_latencies(samples).len() > 0,
        summary_of(sorted_latencies(samples)) matches Some(l) ==> l.min <= l.median <= l.p95
            <= l.max,
        stats_of(samples).wf(),
{
    lemma_sorted_latencies(samples);
    lemma_answered_count(samples);
    let sorted = sorted_latencies(samples);
    if sorted.len() > 0 {
        lemma_p95_index_in_range(sorted.len());
    }
}

/// There are no more answered latencies than samples.
pub proof fn lemma_answered_count(samples: Seq<Sample>)
    ensures
        answered_latencies(samples).len() <= samples.len(),
    decreases samples.len(),
{
    if samples.len() > 0 {
        lemma_answered_count(samples.drop_last());
    }
}

/// The lost fraction `lost / sample_count` lies between 0 and 1; it is 1
/// exactly when every probe timed out, and 0 exactly when none did.
pub proof fn lemma_loss_fraction(samples: Seq<Sample>)
    ensures
        0 <= stats_of(samples).lost() <= stats_of(samples).sample_count,
        stats_of(samples).lost() == stats_of(samples).sample_count <==> forall|i: int|
            0 <= i < samples.len() ==> (#[trigger] samples[i]).latency is TimedOut,
        stats_of(samples).lost() == 0 <==> forall|i: int|
            0 <= i < samples.len() ==> (#[trigger] samples[i]).latency is Answered,
    decreases samples.len(),
{
    lemma_answered_count(samples);
    if samples.len() > 0 {
        let before = samples.drop_last();
        lemma_loss_fraction(before);
        lemma_answered_count(before);
        if forall|i: int| 0 <= i < before.len() ==> (#[trigger] before[i]).latency is TimedOut {
            if samples.last().latency is TimedOut {
                assert forall|i: int| 0 <= i < samples.len() implies (#[trigger] samples[i]).latency is TimedOut by {
                    if i < before.len() {
                        assert(before[i] == samples[i]);
                    }
                }
            }
        } else {
            let i = choose|i: int| 0 <= i < before.len() && !((#[trigger] before[i]).latency is TimedOut);
            assert(before[i] == samples[i]);
        }
        if forall|i: int| 0 <= i < before.len() ==> (#[trigger] before[i]).latency is Answered {
            if samples.last().latency is Answered {
                assert forall|i: int| 0 <= i < samples.len() implies (#[trigger] samples[i]).latency is Answered by {
                    if i < before.len() {
                        assert(before[i] == samples[i]);
                    }
                }
            }
        } else {
            let i = choose|i: int| 0 <= i < before.len() && !((#[trigger] before[i]).latency is Answered);
            assert(before[i] == samples[i]);
        }
    }
}

/// Computes the statistics of one target's samples.
pub fn compute_stats(run: &TargetRun) -> (stats: Stats)
    ensures
        stats@ == stats_of(run.samples@),
        stats@.wf(),
{
    let latencies = collect_answered(&run.samples);
    let sorted = sort_latencies(&latencies);
    proof {
        lemma_summary_ordered(run.samples@);
    }
    Stats { sample_count: run.samples.len(), answered: sorted.len(), latency: summarize(&sorted) }
}

} // verus!
