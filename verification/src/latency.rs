//! Input-latency recording and sorted-percentile statistics. Timing samples
//! (in thousandths of a millisecond) funnel into a bounded window of the most
//! recent 1000 measurements; statistics are recomputed on demand from the full
//! retained window by sorting a copy and indexing nearest ranks, trading
//! O(n log n) per query for simplicity since queries are user-triggered.

use vstd::prelude::*;
use vstd::relations::sorted_by;
use vstd::relations::total_ordering;
use vstd::seq_lib::lemma_sorted_unique;

use crate::bounded::BoundedSeries;
use crate::numfmt::dec_digits;
use crate::numfmt::push_u64;
use crate::stats::mean_floor;
use crate::stats::window_mean;

verus! {

/// How many latency measurements are retained.
pub const LATENCY_LOG_CAPACITY: usize = 1000;

/// The order the statistics sort by: plain `<=` on the sample values.
pub open spec fn latency_leq() -> spec_fn(u64, u64) -> bool {
    |a: u64, b: u64| a <= b
}

/// The retained measurements in ascending order.
pub open spec fn sorted_of(s: Seq<u64>) -> Seq<u64> {
    s.sort_by(latency_leq())
}

/// Plain `<=` is a total order, so a history has exactly one sorted form.
pub proof fn lemma_latency_leq_total()
    ensures
        total_ordering(latency_leq()),
{
}

/// The nearest-rank percentile of a non-empty ascending sample sequence:
/// the element at index `min(floor(len * p / 100), len - 1)`. Not
/// interpolated, by design, so reports are reproducible exactly.
pub open spec fn spec_percentile(sorted: Seq<u64>, p_hundredths: u64) -> u64 {
    sorted[percentile_index(sorted.len() as int, p_hundredths as int)]
}

/// The nearest-rank index for percentile `p` (in hundredths) of `len` samples.
pub open spec fn percentile_index(len: int, p_hundredths: int) -> int {
    if len * p_hundredths / 100 < len - 1 {
        len * p_hundredths / 100
    } else {
        len - 1
    }
}

/// Sorts a copy of the samples ascending by insertion into position.
fn sort_ascending(v: &Vec<u64>) -> (r: Vec<u64>)
    ensures
        r@ == sorted_of(v@),
        r@.len() == v@.len(),
        sorted_by(r@, latency_leq()),
        r@.to_multiset() == v@.to_multiset(),
{
    broadcast use vstd::seq_lib::group_to_multiset_ensures;

    let mut r: Vec<u64> = Vec::new();
    let mut i: usize = 0;
    while i < v.len()
        invariant
            i <= v@.len(),
            r@.len() == i,
            sorted_by(r@, latency_leq()),
            r@.to_multiset() == v@.take(i as int).to_multiset(),
        decreases v@.len() - i,
    {
        let x = v[i];
        let mut k: usize = 0;
        while k < r.len() && r[k] <= x
            invariant
                k <= r@.len(),
                forall|m: int| 0 <= m < k ==> r@[m] <= x,
            decreases r@.len() - k,
        {
            k = k + 1;
        }
        let ghost r0 = r@;
        r.insert(k, x);
        proof {
            broadcast use vstd::seq_lib::group_to_multiset_ensures;

            r0.insert_ensures(k as int, x);
            assert forall|a: int, b: int| 0 <= a < b < r@.len() implies latency_leq()(
                r@[a],
                r@[b],
            ) by {
                if b < k {
                    assert(latency_leq()(r0[a], r0[b]));
                } else if a > k {
                    assert(latency_leq()(r0[a - 1], r0[b - 1]));
                } else if a < k && b > k {
                    assert(r@[a] == r0[a] && r0[a] <= x);
                    assert(r@[b] == r0[b - 1]);
                    if b - 1 > k {
                        assert(latency_leq()(r0[k as int], r0[b - 1]));
                    }
                } else if b == k {
                    assert(r@[a] == r0[a] && r0[a] <= x);
                    assert(r@[b] == x);
                } else {
                    assert(a == k && r@[a] == x);
                    assert(r@[b] == r0[b - 1]);
                    assert(x < r0[k as int]);
                    if b - 1 > k {
                        assert(latency_leq()(r0[k as int], r0[b - 1]));
                    }
                }
            }
            vstd::seq_lib::to_multiset_insert(r0, k as int, x);
            assert(v@.take(i as int + 1) =~= v@.take(i as int).push(x));
            assert(v@.take(i as int).push(x).to_multiset() == v@.take(
                i as int,
            ).to_multiset().insert(x));
            assert(r@.to_multiset() == v@.take(i as int + 1).to_multiset());
        }
        i = i + 1;
    }
    proof {
        assert(v@.take(v@.len() as int) =~= v@);
        lemma_latency_leq_total();
        v@.lemma_sort_by_ensures(latency_leq());
        lemma_sorted_unique(r@, sorted_of(v@), latency_leq());
    }
    r
}

/// The nearest-rank percentile of a non-empty ascending sample vector.
pub fn percentile(sorted_data: &Vec<u64>, p_hundredths: u64) -> (r: u64)
    requires
        sorted_data@.len() > 0,
    ensures
        r == spec_percentile(sorted_data@, p_hundredths),
{
    let len = sorted_data.len();
    let idx: usize = if p_hundredths >= 100 {
        proof {
            assert(len as int * 100 <= len as int * p_hundredths as int) by (nonlinear_arith)
                requires
                    p_hundredths >= 100,
                    len >= 0,
            ;
            vstd::arithmetic::div_mod::lemma_div_is_ordered(
                len as int * 100,
                len as int * p_hundredths as int,
                100,
            );
            vstd::arithmetic::div_mod::lemma_div_by_multiple(len as int, 100);
        }
        len - 1
    } else {
        proof {
            assert(len as int * p_hundredths as int <= len as int * 100) by (nonlinear_arith)
                requires
                    p_hundredths <= 100,
                    len >= 0,
            ;
            vstd::arithmetic::div_mod::lemma_div_is_ordered(
                len as int * p_hundredths as int,
                len as int * 100,
                100,
            );
            vstd::arithmetic::div_mod::lemma_div_by_multiple(len as int, 100);
        }
        let scaled = (len as u128) * (p_hundredths as u128) / 100;
        let candidate = scaled as usize;
        if candidate < len - 1 {
            candidate
        } else {
            len - 1
        }
    };
    sorted_data[idx]
}

/// Sorted-percentile statistics over one latency window: an immutable view
/// handed to the display layer. All values except `count` are in thousandths
/// of a millisecond.
#[derive(Clone, Copy, Debug, PartialEq, Eq, Structural)]
pub struct LatencyStats {
    pub count: usize,
    pub avg: u64,
    pub min: u64,
    pub max: u64,
    pub p50: u64,
    pub p95: u64,
    pub p99: u64,
}

impl Default for LatencyStats {
    /// The all-zero statistics, reported while no measurement was recorded.
    fn default() -> (s: Self)
        ensures
            s == (LatencyStats { count: 0, avg: 0, min: 0, max: 0, p50: 0, p95: 0, p99: 0 }),
    {
        LatencyStats { count: 0, avg: 0, min: 0, max: 0, p50: 0, p95: 0, p99: 0 }
    }
}

/// The report text for one statistics snapshot.
pub open spec fn report_text(s: LatencyStats) -> Seq<char> {
    "Input Latency Report (n="@ + dec_digits(s.count as nat) + ")\n"@ + "Average: "@ + dec_digits(
        s.avg as nat,
    ) + "ms\n"@ + "Min: "@ + dec_digits(s.min as nat) + "ms\n"@ + "Max: "@ + dec_digits(
        s.max as nat,
    ) + "ms\n"@ + "P50: "@ + dec_digits(s.p50 as nat) + "ms\n"@ + "P95: "@ + dec_digits(
        s.p95 as nat,
    ) + "ms\n"@ + "P99: "@ + dec_digits(s.p99 as nat) + "ms"@
}

impl LatencyStats {
    /// Whether the 95th percentile is within the target, boundary inclusive.
    pub fn meets_target(&self, target_milli_ms: u64) -> (r: bool)
        ensures
            r == (self.p95 <= target_milli_ms),
    {
        self.p95 <= target_milli_ms
    }

    /// Renders the statistics as a fixed-layout text report.
    pub fn format_report(&self) -> (r: String)
        ensures
            r@ == report_text(*self),
    {
        let mut out = String::new();
        out.append("Input Latency Report (n=");
        push_u64(&mut out, self.count as u64);
        out.append(")\n");
        out.append("Average: ");
        push_u64(&mut out, self.avg);
        out.append("ms\n");
        out.append("Min: ");
        push_u64(&mut out, self.min);
        out.append("ms\n");
        out.append("Max: ");
        push_u64(&mut out, self.max);
        out.append("ms\n");
        out.append("P50: ");
        push_u64(&mut out, self.p50);
        out.append("ms\n");
        out.append("P95: ");
        push_u64(&mut out, self.p95);
        out.append("ms\n");
        out.append("P99: ");
        push_u64(&mut out, self.p99);
        out.append("ms");
        proof {
            assert(out@ =~= report_text(*self));
        }
        out
    }
}

/// Records user-perceived latencies, either through a start/end mark pair
/// bracketing one operation or by direct insertion of a caller-computed
/// duration. Both paths funnel into the same bounded window.
pub struct InputLatencyMeasurer {
    measurements: BoundedSeries<u64>,
    last_input_time: u64,
}

impl InputLatencyMeasurer {
    /// The retained window of measurements, oldest first, in thousandths of
    /// a millisecond.
    pub closed spec fn measurements(&self) -> Seq<u64> {
        self.measurements@
    }

    /// The pending start mark; 0 means no start was marked.
    pub closed spec fn last_start(&self) -> u64 {
        self.last_input_time
    }

    /// Well-formedness: the window is intact and holds at most
    /// `LATENCY_LOG_CAPACITY` measurements.
    pub closed spec fn well_formed(&self) -> bool {
        &&& self.measurements.well_formed()
        &&& self.measurements.cap() == LATENCY_LOG_CAPACITY
    }

    pub fn new() -> (s: Self)
        ensures
            s.well_formed(),
            s.measurements() == Seq::<u64>::empty(),
            s.last_start() == 0,
    {
        InputLatencyMeasurer {
            measurements: BoundedSeries::new(LATENCY_LOG_CAPACITY),
            last_input_time: 0,
        }
    }

    /// Records the start of one user-perceived operation. `now` is the
    /// host clock reading in thousandths of a millisecond; a reading of 0 is
    /// indistinguishable from "no start marked".
    pub fn mark_input_start(&mut self, now: u64)
        requires
            old(self).well_formed(),
        ensures
            final(self).well_formed(),
            final(self).last_start() == now,
            final(self).measurements() == old(self).measurements(),
    {
        self.last_input_time = now;
    }

    /// Records the end of the operation begun by the last start mark and
    /// stores the elapsed time. A no-op when no start was marked (an
    /// unbalanced end mark tolerates UI races) or when the clock reads
    /// earlier than the start (a negative latency is rejected as invalid).
    pub fn mark_input_end(&mut self, now: u64)
        requires
            old(self).well_formed(),
        ensures
            final(self).well_formed(),
            final(self).last_start() == old(self).last_start(),
            final(self).measurements() == if old(self).last_start() > 0 && now >= old(
                self,
            ).last_start() {
                crate::bounded::retained(
                    old(self).measurements().push((now - old(self).last_start()) as u64),
                    LATENCY_LOG_CAPACITY as nat,
                )
            } else {
                old(self).measurements()
            },
    {
        if self.last_input_time > 0 && now >= self.last_input_time {
            let latency = now - self.last_input_time;
            self.push_measurement(latency);
        }
    }

    /// Directly inserts a caller-computed duration, bypassing the mark pair.
    pub fn add_measurement(&mut self, latency: u64)
        requires
            old(self).well_formed(),
        ensures
            final(self).well_formed(),
            final(self).last_start() == old(self).last_start(),
            final(self).measurements() == crate::bounded::retained(
                old(self).measurements().push(latency),
                LATENCY_LOG_CAPACITY as nat,
            ),
    {
        self.push_measurement(latency);
    }

    fn push_measurement(&mut self, latency: u64)
        requires
            old(self).well_formed(),
        ensures
            final(self).well_formed(),
            final(self).last_start() == old(self).last_start(),
            final(self).measurements() == crate::bounded::retained(
                old(self).measurements().push(latency),
                LATENCY_LOG_CAPACITY as nat,
            ),
    {
        let ghost m0 = self.measurements@;
        self.measurements.push(latency);
        proof {
            assert(self.measurements@ =~= crate::bounded::retained(
                m0.push(latency),
                LATENCY_LOG_CAPACITY as nat,
            ));
        }
    }

    /// Clears the window and the pending start mark.
    pub fn reset(&mut self)
        requires
            old(self).well_formed(),
        ensures
            final(self).well_formed(),
            final(self).measurements() == Seq::<u64>::empty(),
            final(self).last_start() == 0,
    {
        self.measurements.clear();
        self.last_input_time = 0;
    }

    /// Computes the statistics of the current window: all-zero while it is
    /// empty, otherwise the exact extremes, the floor mean, and the
    /// nearest-rank 50th, 95th and 99th percentiles of the sorted window.
    pub fn get_stats(&self) -> (r: LatencyStats)
        requires
            self.well_formed(),
        ensures
            r.count == self.measurements().len(),
            self.measurements().len() == 0 ==> r == (LatencyStats {
                count: 0,
                avg: 0,
                min: 0,
                max: 0,
                p50: 0,
                p95: 0,
                p99: 0,
            }),
            self.measurements().len() > 0 ==> {
                let sorted = sorted_of(self.measurements());
                &&& r.avg as int == mean_floor(self.measurements())
                &&& r.min == sorted[0]
                &&& r.max == sorted.last()
                &&& r.p50 == spec_percentile(sorted, 50)
                &&& r.p95 == spec_percentile(sorted, 95)
                &&& r.p99 == spec_percentile(sorted, 99)
            },
    {
        let count = self.measurements.len();
        if count == 0 {
            return LatencyStats { count: 0, avg: 0, min: 0, max: 0, p50: 0, p95: 0, p99: 0 };
        }
        let mut copy: Vec<u64> = Vec::new();
        proof {
            assert(copy@ =~= self.measurements().take(0));
        }
        let mut i: usize = 0;
        while i < count
            invariant
                i <= count,
                count == self.measurements().len(),
                self.well_formed(),
                copy@ == self.measurements().take(i as int),
            decreases count - i,
        {
            copy.push(*self.measurements.get(i));
            proof {
                assert(copy@ =~= self.measurements().take(i as int + 1));
            }
            i = i + 1;
        }
        proof {
            assert(copy@ =~= self.measurements());
        }
        let sorted = sort_ascending(&copy);
        let avg = window_mean(&self.measurements);
        let min = sorted[0];
        let max = sorted[sorted.len() - 1];
        let p50 = percentile(&sorted, 50);
        let p95 = percentile(&sorted, 95);
        let p99 = percentile(&sorted, 99);
        LatencyStats { count, avg, min, max, p50, p95, p99 }
    }
}

/// Law: for any non-empty window, the reported order holds:
/// `min <= p50 <= p95 <= p99 <= max`.
pub proof fn lemma_percentiles_ordered(measurements: Seq<u64>)
    requires
        measurements.len() > 0,
    ensures
        sorted_of(measurements)[0] <= spec_percentile(sorted_of(measurements), 50),
        spec_percentile(sorted_of(measurements), 50) <= spec_percentile(
            sorted_of(measurements),
            95,
        ),
        spec_percentile(sorted_of(measurements), 95) <= spec_percentile(
            sorted_of(measurements),
            99,
        ),
        spec_percentile(sorted_of(measurements), 99) <= sorted_of(measurements).last(),
{
    lemma_latency_leq_total();
    measurements.lemma_sort_by_ensures(latency_leq());
    let s = sorted_of(measurements);
    let n = s.len() as int;
    assert(s.len() == measurements.len()) by {
        broadcast use vstd::seq_lib::group_to_multiset_ensures;

        assert(s.to_multiset().len() == measurements.to_multiset().len());
    }
    lemma_percentile_index_ordered(n, 50, 95);
    lemma_percentile_index_ordered(n, 95, 99);
    lemma_sorted_index_ordered(s, 0, percentile_index(n, 50));
    lemma_sorted_index_ordered(s, percentile_index(n, 50), percentile_index(n, 95));
    lemma_sorted_index_ordered(s, percentile_index(n, 95), percentile_index(n, 99));
    lemma_sorted_index_ordered(s, percentile_index(n, 99), n - 1);
}

/// Nearest-rank indices grow with the percentile.
proof fn lemma_percentile_index_ordered(len: int, p: int, q: int)
    requires
        len > 0,
        0 <= p <= q,
    ensures
        0 <= percentile_index(len, p) <= percentile_index(len, q) <= len - 1,
{
    assert(len * p <= len * q) by (nonlinear_arith)
        requires
            0 <= p <= q,
            len > 0,
    ;
    vstd::arithmetic::div_mod::lemma_div_is_ordered(len * p, len * q, 100);
    assert(len * p >= 0) by (nonlinear_arith)
        requires
            len > 0,
            p >= 0,
    ;
    vstd::arithmetic::div_mod::lemma_div_pos_is_pos(len * p, 100);
}

/// In an ascending sequence, the element at a lower index never exceeds the
/// element at a higher one.
proof fn lemma_sorted_index_ordered(s: Seq<u64>, a: int, b: int)
    requires
        sorted_by(s, latency_leq()),
        0 <= a <= b < s.len(),
    ensures
        s[a] <= s[b],
{
    if a < b {
        assert(latency_leq()(s[a], s[b]));
    }
}

} // verus!
