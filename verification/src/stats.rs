//! Shared statistics over sample histories: the exact sum, maximum and floor
//! mean of a sequence of fixed-point samples, with the bounds the engines
//! need to stay inside machine arithmetic.

use vstd::arithmetic::div_mod::lemma_div_by_multiple;
use vstd::arithmetic::div_mod::lemma_div_is_ordered;
use vstd::prelude::*;

use crate::bounded::BoundedSeries;

verus! {

/// The sum of a sample history.
pub open spec fn sum_of(s: Seq<u64>) -> int
    decreases s.len(),
{
    if s.len() == 0 {
        0
    } else {
        sum_of(s.drop_last()) + s.last()
    }
}

/// The largest sample of a history, or 0 for an empty history.
pub open spec fn max_of(s: Seq<u64>) -> int
    decreases s.len(),
{
    if s.len() == 0 {
        0
    } else {
        let m = max_of(s.drop_last());
        if s.last() > m {
            s.last() as int
        } else {
            m
        }
    }
}

/// The floor of the arithmetic mean of a history, or 0 for an empty history.
pub open spec fn mean_floor(s: Seq<u64>) -> int {
    if s.len() == 0 {
        0
    } else {
        sum_of(s) / (s.len() as int)
    }
}

/// The sum of a history of `u64` samples is bounded by its length times the
/// largest `u64`.
pub proof fn lemma_sum_of_bound(s: Seq<u64>)
    ensures
        0 <= sum_of(s) <= s.len() * 0xffff_ffff_ffff_ffff,
    decreases s.len(),
{
    if s.len() > 0 {
        lemma_sum_of_bound(s.drop_last());
    }
}

/// The floor of the mean of `u64` samples fits in a `u64`.
pub proof fn lemma_mean_floor_fits(s: Seq<u64>)
    requires
        s.len() > 0,
    ensures
        0 <= mean_floor(s) <= 0xffff_ffff_ffff_ffff,
{
    let n = s.len() as int;
    let m = 0xffff_ffff_ffff_ffffint;
    lemma_sum_of_bound(s);
    lemma_div_is_ordered(sum_of(s), n * m, n);
    lemma_div_by_multiple(m, n);
    assert(n * m == m * n) by (nonlinear_arith);
}

/// The largest sample really is an upper bound, and is attained.
pub proof fn lemma_max_of_is_true_max(s: Seq<u64>)
    requires
        s.len() > 0,
    ensures
        exists|i: int| 0 <= i < s.len() && s[i] as int == max_of(s),
        forall|i: int| 0 <= i < s.len() ==> s[i] <= max_of(s),
    decreases s.len(),
{
    let t = s.drop_last();
    if s.len() == 1 {
        assert(t.len() == 0);
        assert(max_of(t) == 0);
        assert(s[0] as int == max_of(s));
    } else {
        lemma_max_of_is_true_max(t);
        if s.last() > max_of(t) {
            assert(s[s.len() - 1] as int == max_of(s));
        } else {
            let witness = choose|i: int| 0 <= i < t.len() && t[i] as int == max_of(t);
            assert(s[witness] as int == max_of(s));
        }
        assert forall|i: int| 0 <= i < s.len() implies s[i] <= max_of(s) by {
            if i < s.len() - 1 {
                assert(s[i] == t[i]);
            }
        }
    }
}

/// The sum of a history whose samples all lie in `[lo, hi]` lies between
/// `len * lo` and `len * hi`.
pub proof fn lemma_sum_of_between(s: Seq<u64>, lo: int, hi: int)
    requires
        forall|i: int| 0 <= i < s.len() ==> lo <= #[trigger] s[i] <= hi,
    ensures
        s.len() * lo <= sum_of(s) <= s.len() * hi,
    decreases s.len(),
{
    if s.len() == 0 {
        assert(s.len() * lo == 0) by (nonlinear_arith)
            requires
                s.len() == 0,
        ;
        assert(s.len() * hi == 0) by (nonlinear_arith)
            requires
                s.len() == 0,
        ;
    } else {
        let t = s.drop_last();
        lemma_sum_of_between(t, lo, hi);
        assert(s.len() * lo == t.len() * lo + lo) by (nonlinear_arith)
            requires
                s.len() == t.len() + 1,
        ;
        assert(s.len() * hi == t.len() * hi + hi) by (nonlinear_arith)
            requires
                s.len() == t.len() + 1,
        ;
    }
}

/// The mean of a retained window of samples, as the engines report it.
pub fn window_mean(series: &BoundedSeries<u64>) -> (m: u64)
    requires
        series@.len() > 0,
    ensures
        m as int == mean_floor(series@),
{
    let len = series.len();
    let mut sum: u128 = 0;
    let mut i: usize = 0;
    while i < len
        invariant
            i <= len,
            len == series@.len(),
            sum == sum_of(series@.take(i as int)),
        decreases len - i,
    {
        proof {
            lemma_sum_of_bound(series@.take(i as int));
            assert(series@.take(i as int + 1).drop_last() =~= series@.take(i as int));
        }
        sum = sum + (*series.get(i)) as u128;
        i = i + 1;
    }
    proof {
        assert(series@.take(len as int) =~= series@);
        lemma_mean_floor_fits(series@);
    }
    (sum / (len as u128)) as u64
}

} // verus!
