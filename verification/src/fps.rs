//! Streaming frame-rate statistics: current/min/max/mean over every sample
//! recorded since the last reset, in constant space per sample, plus the
//! threshold classifiers and the advisory rule set derived from them.
//!
//! Frame rates are carried in milli-fps (thousandths of a frame per second)
//! and memory snapshots in milli-megabytes, so the running sum and the
//! reported mean are exact integers.

use vstd::arithmetic::div_mod::lemma_div_by_multiple;
use vstd::arithmetic::div_mod::lemma_div_is_ordered;
use vstd::prelude::*;

use crate::bounded::BoundedSeries;
use crate::stats::lemma_max_of_is_true_max;
use crate::stats::lemma_mean_floor_fits;
use crate::stats::lemma_sum_of_between;
use crate::stats::lemma_sum_of_bound;
use crate::stats::max_of;
use crate::stats::mean_floor;
use crate::stats::sum_of;
use crate::stats::window_mean;

verus! {

/// Mean frame rates of at least 55 fps are classified `Excellent`.
pub const EXCELLENT_MIN_MILLI_FPS: u64 = 55000;

/// Mean frame rates of at least 45 fps are classified `Good` by the
/// four-tier classifier. The coarse three-tier classifier has no boundary
/// here; the two rule sets agree only at 55 and 30 and are kept distinct.
pub const GOOD_MIN_MILLI_FPS: u64 = 45000;

/// Mean frame rates of at least 30 fps are classified `Fair`; below it the
/// load-reduction advisory fires.
pub const FAIR_MIN_MILLI_FPS: u64 = 30000;

/// A spread of more than 20 fps between the largest and smallest sample
/// triggers the jitter advisory.
pub const JITTER_SPREAD_MILLI_FPS: u64 = 20000;

/// A mean retained memory snapshot above 100 MB triggers the memory advisory.
pub const MEMORY_MEAN_LIMIT_MILLI_MB: u64 = 100000;

/// How many memory snapshots are retained for the memory advisory.
pub const MEMORY_LOG_CAPACITY: usize = 100;

/// The tracked minimum with its zero sentinel: 0 means "no minimum observed
/// yet", and a sample replaces the tracked value when that value is still the
/// sentinel or the sample is smaller. A true observed minimum of zero is
/// therefore indistinguishable from the unset state, by design.
pub open spec fn run_min(s: Seq<u64>) -> int
    decreases s.len(),
{
    if s.len() == 0 {
        0
    } else {
        let m = run_min(s.drop_last());
        if m == 0 || s.last() < m {
            s.last() as int
        } else {
            m
        }
    }
}

/// An immutable view of the aggregate, handed to the display layer.
/// All rates are in milli-fps.
#[derive(Clone, Copy, Debug, PartialEq, Eq, Structural)]
pub struct FpsSnapshot {
    pub current: u64,
    pub min: u64,
    pub max: u64,
    pub average: u64,
    pub sample_count: u32,
}

/// The four-tier classification of a mean frame rate.
#[derive(Clone, Copy, Debug, PartialEq, Eq, Structural)]
pub enum PerformanceScore {
    Excellent,
    Good,
    Fair,
    Poor,
}

/// The four-tier classifier: boundaries at 55, 45 and 30 fps.
pub open spec fn spec_evaluate(average_milli: int) -> PerformanceScore {
    if average_milli >= EXCELLENT_MIN_MILLI_FPS {
        PerformanceScore::Excellent
    } else if average_milli >= GOOD_MIN_MILLI_FPS {
        PerformanceScore::Good
    } else if average_milli >= FAIR_MIN_MILLI_FPS {
        PerformanceScore::Fair
    } else {
        PerformanceScore::Poor
    }
}

impl PerformanceScore {
    /// The display colour of the tier. Policy data, not logic.
    pub fn color(&self) -> (r: &'static str)
        ensures
            *self == PerformanceScore::Excellent ==> r@ == "#4CAF50"@,
            *self == PerformanceScore::Good ==> r@ == "#8BC34A"@,
            *self == PerformanceScore::Fair ==> r@ == "#FF9800"@,
            *self == PerformanceScore::Poor ==> r@ == "#f44336"@,
    {
        match self {
            PerformanceScore::Excellent => "#4CAF50",
            PerformanceScore::Good => "#8BC34A",
            PerformanceScore::Fair => "#FF9800",
            PerformanceScore::Poor => "#f44336",
        }
    }

    /// The display label of the tier. Policy data, not logic.
    pub fn text(&self) -> (r: &'static str)
        ensures
            *self == PerformanceScore::Excellent ==> r@ == "excellent"@,
            *self == PerformanceScore::Good ==> r@ == "good"@,
            *self == PerformanceScore::Fair ==> r@ == "fair"@,
            *self == PerformanceScore::Poor ==> r@ == "poor"@,
    {
        match self {
            PerformanceScore::Excellent => "excellent",
            PerformanceScore::Good => "good",
            PerformanceScore::Fair => "fair",
            PerformanceScore::Poor => "poor",
        }
    }
}

/// One advisory from the rule set. The rules are independent; every
/// applicable one fires, in the fixed order load, jitter, memory, and the
/// fallback fires alone when no rule does.
#[derive(Clone, Copy, Debug, PartialEq, Eq, Structural)]
pub enum Recommendation {
    ReduceObjectCount,
    InvestigateJitter,
    ReduceMemoryUse,
    PerformingWell,
}

/// The advisory text of a recommendation.
pub open spec fn recommendation_text(r: Recommendation) -> Seq<char> {
    match r {
        Recommendation::ReduceObjectCount => "consider reducing the object count"@,
        Recommendation::InvestigateJitter => "frame rate varies widely; consider optimizing the update work"@,
        Recommendation::ReduceMemoryUse => "memory use is high; consider releasing unneeded objects"@,
        Recommendation::PerformingWell => "performance is good"@,
    }
}

impl Recommendation {
    /// The advisory text shown for this recommendation.
    pub fn text(&self) -> (r: &'static str)
        ensures
            r@ == recommendation_text(*self),
    {
        match self {
            Recommendation::ReduceObjectCount => "consider reducing the object count",
            Recommendation::InvestigateJitter => "frame rate varies widely; consider optimizing the update work",
            Recommendation::ReduceMemoryUse => "memory use is high; consider releasing unneeded objects",
            Recommendation::PerformingWell => "performance is good",
        }
    }
}

/// The load rule: the mean frame rate is below 30 fps.
pub open spec fn low_fps_rule(samples: Seq<u64>) -> bool {
    mean_floor(samples) < FAIR_MIN_MILLI_FPS
}

/// The jitter rule: the spread between the largest sample and the tracked
/// minimum exceeds 20 fps.
pub open spec fn jitter_rule(samples: Seq<u64>) -> bool {
    max_of(samples) - run_min(samples) > JITTER_SPREAD_MILLI_FPS
}

/// The memory rule: snapshots were recorded and their mean exceeds 100 MB.
pub open spec fn memory_rule(memory: Seq<u64>) -> bool {
    memory.len() > 0 && mean_floor(memory) > MEMORY_MEAN_LIMIT_MILLI_MB
}

/// The full advisory list for a sample history and a memory-snapshot window.
pub open spec fn spec_recommendations(samples: Seq<u64>, memory: Seq<u64>) -> Seq<Recommendation> {
    let fired = (if low_fps_rule(samples) {
        seq![Recommendation::ReduceObjectCount]
    } else {
        Seq::empty()
    }) + (if jitter_rule(samples) {
        seq![Recommendation::InvestigateJitter]
    } else {
        Seq::empty()
    }) + (if memory_rule(memory) {
        seq![Recommendation::ReduceMemoryUse]
    } else {
        Seq::empty()
    });
    if fired.len() == 0 {
        seq![Recommendation::PerformingWell]
    } else {
        fired
    }
}

/// Streaming frame-rate statistics. The running sum is kept exactly, so the
/// reported mean is the floor of the arithmetic mean of every sample recorded
/// since the last reset, in O(1) space and O(1) time per sample.
pub struct FpsAggregator {
    current: u64,
    min: u64,
    max: u64,
    sample_count: u32,
    sum: u128,
    samples: Ghost<Seq<u64>>,
    memory: BoundedSeries<u64>,
}

impl FpsAggregator {
    /// Every frame-rate sample recorded since construction or the last reset,
    /// in milli-fps, oldest first.
    pub closed spec fn samples(&self) -> Seq<u64> {
        self.samples@
    }

    /// The retained window of memory snapshots, in milli-megabytes.
    pub closed spec fn memory_log(&self) -> Seq<u64> {
        self.memory@
    }

    /// Well-formedness: every field is determined by the sample history.
    /// Constructors establish it and every method preserves it.
    pub closed spec fn well_formed(&self) -> bool {
        &&& self.sample_count == self.samples@.len()
        &&& self.sum == sum_of(self.samples@)
        &&& self.current as int == if self.samples@.len() == 0 {
            0int
        } else {
            self.samples@.last() as int
        }
        &&& self.max as int == max_of(self.samples@)
        &&& self.min as int == run_min(self.samples@)
        &&& self.memory.well_formed()
        &&& self.memory.cap() == MEMORY_LOG_CAPACITY
    }

    pub fn new() -> (s: Self)
        ensures
            s.well_formed(),
            s.samples() == Seq::<u64>::empty(),
            s.memory_log() == Seq::<u64>::empty(),
    {
        FpsAggregator {
            current: 0,
            min: 0,
            max: 0,
            sample_count: 0,
            sum: 0,
            samples: Ghost(Seq::empty()),
            memory: BoundedSeries::new(MEMORY_LOG_CAPACITY),
        }
    }

    /// Records one frame-rate sample in milli-fps: updates the current value,
    /// the extremes (the minimum only once it leaves its unset state or the
    /// sample undercuts it) and the exact running sum.
    pub fn record(&mut self, fps_milli: u64)
        requires
            old(self).well_formed(),
            old(self).samples().len() < u32::MAX,
        ensures
            final(self).well_formed(),
            final(self).samples() == old(self).samples().push(fps_milli),
            final(self).memory_log() == old(self).memory_log(),
    {
        let ghost s0 = self.samples@;
        let ghost s1 = s0.push(fps_milli);
        proof {
            assert(s1.drop_last() =~= s0);
            lemma_sum_of_bound(s0);
        }
        self.sample_count = self.sample_count + 1;
        self.current = fps_milli;
        if fps_milli > self.max {
            self.max = fps_milli;
        }
        if self.min == 0 || fps_milli < self.min {
            self.min = fps_milli;
        }
        self.sum = self.sum + fps_milli as u128;
        proof {
            self.samples@ = s1;
        }
    }

    /// Records one memory snapshot in milli-megabytes; the window keeps the
    /// most recent `MEMORY_LOG_CAPACITY` snapshots.
    pub fn add_memory_snapshot(&mut self, memory_milli_mb: u64)
        requires
            old(self).well_formed(),
        ensures
            final(self).well_formed(),
            final(self).samples() == old(self).samples(),
            final(self).memory_log() == crate::bounded::retained(
                old(self).memory_log().push(memory_milli_mb),
                MEMORY_LOG_CAPACITY as nat,
            ),
    {
        let ghost m0 = self.memory@;
        self.memory.push(memory_milli_mb);
        proof {
            assert(self.memory@ =~= crate::bounded::retained(
                m0.push(memory_milli_mb),
                MEMORY_LOG_CAPACITY as nat,
            ));
        }
    }

    /// Returns every field to its zero/unset state, so a stale session's
    /// extremes cannot leak into a new one.
    pub fn reset(&mut self)
        ensures
            final(self).well_formed(),
            final(self).samples() == Seq::<u64>::empty(),
            final(self).memory_log() == Seq::<u64>::empty(),
    {
        self.current = 0;
        self.min = 0;
        self.max = 0;
        self.sample_count = 0;
        self.sum = 0;
        self.memory = BoundedSeries::new(MEMORY_LOG_CAPACITY);
        proof {
            self.samples@ = Seq::empty();
        }
    }

    /// The floor of the arithmetic mean of the recorded samples, in
    /// milli-fps; 0 while no sample was recorded.
    pub fn average_milli(&self) -> (a: u64)
        requires
            self.well_formed(),
        ensures
            a as int == mean_floor(self.samples()),
    {
        if self.sample_count == 0 {
            0
        } else {
            proof {
                lemma_mean_floor_fits(self.samples@);
            }
            (self.sum / (self.sample_count as u128)) as u64
        }
    }

    /// The immutable aggregate view. Reset state (no samples) yields the
    /// all-zero snapshot.
    pub fn snapshot(&self) -> (r: FpsSnapshot)
        requires
            self.well_formed(),
        ensures
            r.sample_count == self.samples().len(),
            r.current as int == if self.samples().len() == 0 {
                0int
            } else {
                self.samples().last() as int
            },
            r.min as int == run_min(self.samples()),
            r.max as int == max_of(self.samples()),
            r.average as int == mean_floor(self.samples()),
            self.samples().len() == 0 ==> r == (FpsSnapshot {
                current: 0,
                min: 0,
                max: 0,
                average: 0,
                sample_count: 0,
            }),
    {
        FpsSnapshot {
            current: self.current,
            min: self.min,
            max: self.max,
            average: self.average_milli(),
            sample_count: self.sample_count,
        }
    }

    /// The four-tier classification of the mean frame rate.
    pub fn evaluate(&self) -> (score: PerformanceScore)
        requires
            self.well_formed(),
        ensures
            score == spec_evaluate(mean_floor(self.samples())),
    {
        let average = self.average_milli();
        if average >= EXCELLENT_MIN_MILLI_FPS {
            PerformanceScore::Excellent
        } else if average >= GOOD_MIN_MILLI_FPS {
            PerformanceScore::Good
        } else if average >= FAIR_MIN_MILLI_FPS {
            PerformanceScore::Fair
        } else {
            PerformanceScore::Poor
        }
    }

    /// The coarse three-tier display colour, with boundaries at 55 and 30 fps
    /// only. Deliberately kept distinct from the four-tier classifier.
    pub fn get_performance_color(&self) -> (r: &'static str)
        requires
            self.well_formed(),
        ensures
            mean_floor(self.samples()) >= EXCELLENT_MIN_MILLI_FPS ==> r@ == "#4CAF50"@,
            FAIR_MIN_MILLI_FPS <= mean_floor(self.samples()) < EXCELLENT_MIN_MILLI_FPS ==> r@
                == "#FF9800"@,
            mean_floor(self.samples()) < FAIR_MIN_MILLI_FPS ==> r@ == "#f44336"@,
    {
        let average = self.average_milli();
        if average >= EXCELLENT_MIN_MILLI_FPS {
            "#4CAF50"
        } else if average >= FAIR_MIN_MILLI_FPS {
            "#FF9800"
        } else {
            "#f44336"
        }
    }

    /// The coarse three-tier display label, with boundaries at 55 and 30 fps.
    pub fn get_performance_text(&self) -> (r: &'static str)
        requires
            self.well_formed(),
        ensures
            mean_floor(self.samples()) >= EXCELLENT_MIN_MILLI_FPS ==> r@ == "good"@,
            FAIR_MIN_MILLI_FPS <= mean_floor(self.samples()) < EXCELLENT_MIN_MILLI_FPS ==> r@
                == "fair"@,
            mean_floor(self.samples()) < FAIR_MIN_MILLI_FPS ==> r@ == "poor"@,
    {
        let average = self.average_milli();
        if average >= EXCELLENT_MIN_MILLI_FPS {
            "good"
        } else if average >= FAIR_MIN_MILLI_FPS {
            "fair"
        } else {
            "poor"
        }
    }

    /// Every advisory whose rule fires, in the fixed order load, jitter,
    /// memory; the fallback advisory alone when none fires.
    pub fn recommendation_codes(&self) -> (r: Vec<Recommendation>)
        requires
            self.well_formed(),
        ensures
            r@ == spec_recommendations(self.samples(), self.memory_log()),
    {
        let mut recs: Vec<Recommendation> = Vec::new();
        let average = self.average_milli();
        if average < FAIR_MIN_MILLI_FPS {
            recs.push(Recommendation::ReduceObjectCount);
        }
        proof {
            lemma_run_min_le_max_of(self.samples@);
        }
        if self.max - self.min > JITTER_SPREAD_MILLI_FPS {
            recs.push(Recommendation::InvestigateJitter);
        }
        if self.memory.len() > 0 {
            let memory_mean = window_mean(&self.memory);
            if memory_mean > MEMORY_MEAN_LIMIT_MILLI_MB {
                recs.push(Recommendation::ReduceMemoryUse);
            }
        }
        if recs.len() == 0 {
            recs.push(Recommendation::PerformingWell);
        }
        proof {
            assert(recs@ =~= spec_recommendations(self.samples@, self.memory@));
        }
        recs
    }

    /// The advisory texts, in the same order as `recommendation_codes`.
    pub fn recommendations(&self) -> (r: Vec<String>)
        requires
            self.well_formed(),
        ensures
            r@.len() == spec_recommendations(self.samples(), self.memory_log()).len(),
            forall|i: int|
                0 <= i < r@.len() ==> r@[i]@ == recommendation_text(
                    spec_recommendations(self.samples(), self.memory_log())[i],
                ),
    {
        let codes = self.recommendation_codes();
        let mut out: Vec<String> = Vec::new();
        let mut i: usize = 0;
        while i < codes.len()
            invariant
                i <= codes.len(),
                codes@ == spec_recommendations(self.samples(), self.memory_log()),
                out@.len() == i,
                forall|j: int| 0 <= j < i ==> out@[j]@ == recommendation_text(codes@[j]),
            decreases codes.len() - i,
        {
            let text = codes[i].text();
            out.push(text.to_owned());
            i = i + 1;
        }
        out
    }
}

/// The tracked minimum never exceeds the maximum: it is either the zero
/// sentinel or the value of some sample, and no sample exceeds the maximum.
proof fn lemma_run_min_le_max_of(s: Seq<u64>)
    ensures
        0 <= run_min(s) <= max_of(s),
        0 <= max_of(s) <= 0xffff_ffff_ffff_ffff,
    decreases s.len(),
{
    if s.len() > 0 {
        lemma_run_min_le_max_of(s.drop_last());
    }
}

/// Law: while every recorded sample is positive, the tracked minimum is the
/// true smallest sample (the sentinel never masks it): it is the value of
/// some sample and no sample is below it.
pub proof fn lemma_run_min_is_true_min(s: Seq<u64>)
    requires
        s.len() > 0,
        forall|i: int| 0 <= i < s.len() ==> s[i] > 0,
    ensures
        exists|i: int| 0 <= i < s.len() && s[i] as int == run_min(s),
        forall|i: int| 0 <= i < s.len() ==> run_min(s) <= s[i],
        run_min(s) > 0,
    decreases s.len(),
{
    let t = s.drop_last();
    if s.len() == 1 {
        assert(t.len() == 0);
        assert(run_min(t) == 0);
        assert(s[0] as int == run_min(s));
    } else {
        lemma_run_min_is_true_min(t);
        if run_min(t) == 0 || s.last() < run_min(t) {
            assert(s[s.len() - 1] as int == run_min(s));
        } else {
            let witness = choose|i: int| 0 <= i < t.len() && t[i] as int == run_min(t);
            assert(s[witness] as int == run_min(s));
        }
        assert forall|i: int| 0 <= i < s.len() implies run_min(s) <= s[i] by {
            if i < s.len() - 1 {
                assert(s[i] == t[i]);
            }
        }
    }
}

/// Law: after every record, for a non-empty history of positive samples, the
/// tracked minimum never exceeds the reported mean, and the reported mean
/// never exceeds the maximum. The mean itself is exact: the floor of the sum
/// of all samples divided by their count.
pub proof fn lemma_min_le_mean_le_max(s: Seq<u64>)
    requires
        s.len() > 0,
        forall|i: int| 0 <= i < s.len() ==> s[i] > 0,
    ensures
        run_min(s) <= mean_floor(s) <= max_of(s),
{
    let n = s.len() as int;
    let lo = run_min(s);
    let hi = max_of(s);
    lemma_run_min_is_true_min(s);
    lemma_max_of_is_true_max(s);
    lemma_sum_of_between(s, lo, hi);
    lemma_div_is_ordered(n * lo, sum_of(s), n);
    lemma_div_is_ordered(sum_of(s), n * hi, n);
    lemma_div_by_multiple(lo, n);
    lemma_div_by_multiple(hi, n);
    assert(n * lo == lo * n) by (nonlinear_arith);
    assert(n * hi == hi * n) by (nonlinear_arith);
}

/// Law: once a sample was recorded, the tracked minimum never exceeds the
/// current (most recent) sample, which never exceeds the maximum — with or
/// without the sentinel in play.
pub proof fn lemma_min_le_current_le_max(s: Seq<u64>)
    requires
        s.len() > 0,
    ensures
        run_min(s) <= s.last() <= max_of(s),
    decreases s.len(),
{
    if s.len() > 1 {
        lemma_run_min_le_max_of(s.drop_last());
    }
}

/// Law: a reset aggregator reports the all-zero aggregate values; combined
/// with `snapshot`, a reset with no further call always yields the all-zero
/// snapshot.
pub proof fn lemma_empty_history_is_all_zero()
    ensures
        sum_of(Seq::<u64>::empty()) == 0,
        max_of(Seq::<u64>::empty()) == 0,
        run_min(Seq::<u64>::empty()) == 0,
        mean_floor(Seq::<u64>::empty()) == 0,
{
}

} // verus!
