//! Statistics over a set of samples: minimum, quartiles, median, maximum and
//! mean.
//!
//! Samples are fixed-point numbers with three decimals held in a `u64`: a
//! throughput in thousandths of a megabit per second, a latency in
//! thousandths of a millisecond. A midpoint or a mean that falls between two
//! representable values is rounded down.

use vstd::prelude::*;

verus! {

/// The five-number summary of a sample set, and its mean.
#[derive(Debug, Clone, Copy, PartialEq, Eq, Structural)]
pub struct StatSummary {
    pub min: u64,
    pub q1: u64,
    pub median: u64,
    pub q3: u64,
    pub max: u64,
    pub avg: u64,
}

pub open spec fn is_sorted(s: Seq<u64>) -> bool {
    forall|i: int, j: int| 0 <= i <= j < s.len() ==> s[i] <= s[j]
}

/// `s` with `x` placed before the first element that is not below it.
pub open spec fn insert_sorted(s: Seq<u64>, x: u64) -> Seq<u64>
    decreases s.len(),
{
    if s.len() == 0 {
        seq![x]
    } else if x <= s[0] {
        seq![x] + s
    } else {
        seq![s[0]] + insert_sorted(s.drop_first(), x)
    }
}

/// The samples in ascending order.
pub open spec fn sort_seq(s: Seq<u64>) -> Seq<u64>
    decreases s.len(),
{
    if s.len() == 0 {
        s
    } else {
        insert_sorted(sort_seq(s.drop_last()), s.last())
    }
}

pub open spec fn seq_sum(s: Seq<u64>) -> int
    decreases s.len(),
{
    if s.len() == 0 {
        0
    } else {
        seq_sum(s.drop_last()) + s.last()
    }
}

/// The midpoint of two samples, rounded down.
pub open spec fn midpoint(a: u64, b: u64) -> u64 {
    ((a + b) / 2) as u64
}

/// The median of a sorted sequence: its middle element, or the midpoint of
/// the two middle elements when the length is even.
pub open spec fn median_of(s: Seq<u64>) -> u64 {
    let n = s.len() as int;
    if n % 2 == 0 {
        midpoint(s[n / 2 - 1], s[n / 2])
    } else {
        s[n / 2]
    }
}

/// The lower half of a sorted sequence: its first `ceil(n / 2)` elements.
pub open spec fn lower_half(s: Seq<u64>) -> Seq<u64> {
    s.take(((s.len() + 1) / 2) as int)
}

/// The upper half of a sorted sequence: its last `ceil(n / 2)` elements.
pub open spec fn upper_half(s: Seq<u64>) -> Seq<u64> {
    s.skip((s.len() / 2) as int)
}

/// The summary of the sorted sequence `s` whose elements add up to `total`.
/// Below four samples the quartiles are the extremes.
pub open spec fn summary_of_sorted(s: Seq<u64>, total: int) -> StatSummary {
    let n = s.len() as int;
    StatSummary {
        min: s[0],
        q1: if n < 4 { s[0] } else { median_of(lower_half(s)) },
        median: median_of(s),
        q3: if n < 4 { s[n - 1] } else { median_of(upper_half(s)) },
        max: s[n - 1],
        avg: (total / n) as u64,
    }
}

/// The summary of a non-empty sample set, in any order.
pub open spec fn summary_of(v: Seq<u64>) -> StatSummary {
    summary_of_sorted(sort_seq(v), seq_sum(v))
}

proof fn lemma_sum_prepend(x: u64, s: Seq<u64>)
    ensures
        seq_sum(seq![x] + s) == x + seq_sum(s),
    decreases s.len(),
{
    let xs = seq![x] + s;
    if s.len() > 0 {
        assert(xs.drop_last() =~= seq![x] + s.drop_last());
        assert(xs.last() == s.last());
        lemma_sum_prepend(x, s.drop_last());
    } else {
        assert(xs.drop_last() =~= Seq::<u64>::empty());
        assert(seq_sum(Seq::<u64>::empty()) == 0);
    }
}

proof fn lemma_insert_sum(s: Seq<u64>, x: u64)
    ensures
        seq_sum(insert_sorted(s, x)) == seq_sum(s) + x,
    decreases s.len(),
{
    if s.len() == 0 {
        lemma_sum_prepend(x, s);
        assert(seq![x] + s =~= seq![x]);
    } else if x <= s[0] {
        lemma_sum_prepend(x, s);
    } else {
        lemma_insert_sum(s.drop_first(), x);
        lemma_sum_prepend(s[0], insert_sorted(s.drop_first(), x));
        lemma_sum_prepend(s[0], s.drop_first());
        assert(seq![s[0]] + s.drop_first() =~= s);
    }
}

/// Sorting keeps the sum.
pub proof fn lemma_sort_sum(s: Seq<u64>)
    ensures
        seq_sum(sort_seq(s)) == seq_sum(s),
    decreases s.len(),
{
    if s.len() > 0 {
        lemma_sort_sum(s.drop_last());
        lemma_insert_sum(sort_seq(s.drop_last()), s.last());
    }
}

proof fn lemma_insert_sorted(s: Seq<u64>, x: u64)
    requires
        is_sorted(s),
    ensures
        is_sorted(insert_sorted(s, x)),
        insert_sorted(s, x).len() == s.len() + 1,
        insert_sorted(s, x)[0] == (if s.len() == 0 || x <= s[0] { x } else { s[0] }),
    decreases s.len(),
{
    if s.len() > 0 && x > s[0] {
        let rest = s.drop_first();
        lemma_insert_sorted(rest, x);
        let r = insert_sorted(rest, x);
        assert forall|i: int, j: int| 0 <= i <= j < r.len() + 1 implies (seq![s[0]] + r)[i] <= (
        seq![s[0]] + r)[j] by {
            if i > 0 {
                assert(r[i - 1] <= r[j - 1]);
            } else if j > 0 {
                assert(r[0] <= r[j - 1]);
            }
        }
    }
}

/// Sorting yields an ascending sequence of the same length.
pub proof fn lemma_sort_sorted(s: Seq<u64>)
    ensures
        is_sorted(sort_seq(s)),
        sort_seq(s).len() == s.len(),
    decreases s.len(),
{
    if s.len() > 0 {
        lemma_sort_sorted(s.drop_last());
        lemma_insert_sorted(sort_seq(s.drop_last()), s.last());
    }
}

proof fn lemma_insert_largest(t: Seq<u64>, x: u64)
    requires
        is_sorted(t),
        forall|i: int| 0 <= i < t.len() ==> t[i] <= x,
    ensures
        insert_sorted(t, x) == t.push(x),
    decreases t.len(),
{
    if t.len() == 0 {
        assert(seq![x] =~= t.push(x));
    } else if x <= t[0] {
        assert forall|i: int| 0 <= i < t.len() implies t[i] == x by {
            assert(t[0] <= t[i]);
        }
        assert(seq![x] + t =~= t.push(x));
    } else {
        lemma_insert_largest(t.drop_first(), x);
        assert(seq![t[0]] + t.drop_first().push(x) =~= t.push(x));
    }
}

/// A sorted sequence sorts to itself.
pub proof fn lemma_sort_of_sorted(s: Seq<u64>)
    requires
        is_sorted(s),
    ensures
        sort_seq(s) == s,
    decreases s.len(),
{
    if s.len() > 0 {
        let t = s.drop_last();
        lemma_sort_of_sorted(t);
        lemma_insert_largest(t, s.last());
        assert(t.push(s.last()) =~= s);
    }
}

proof fn lemma_sum_between(s: Seq<u64>, lo: int, hi: int)
    requires
        forall|i: int| 0 <= i < s.len() ==> lo <= #[trigger] s[i] <= hi,
    ensures
        s.len() * lo <= seq_sum(s) <= s.len() * hi,
    decreases s.len(),
{
    if s.len() > 0 {
        let t = s.drop_last();
        lemma_sum_between(t, lo, hi);
        let n = s.len() as int;
        assert(n * lo == (n - 1) * lo + lo) by (nonlinear_arith);
        assert(n * hi == (n - 1) * hi + hi) by (nonlinear_arith);
    }
}

proof fn lemma_median_within(s: Seq<u64>)
    requires
        is_sorted(s),
        s.len() > 0,
    ensures
        s[0] <= median_of(s) <= s[s.len() - 1],
{
    let n = s.len() as int;
    if n % 2 == 0 {
        assert(s[0] <= s[n / 2 - 1]);
        assert(s[n / 2] <= s[n - 1]);
    } else {
        assert(s[0] <= s[n / 2]);
        assert(s[n / 2] <= s[n - 1]);
    }
}

proof fn lemma_insert_at(s: Seq<u64>, x: u64, p: int)
    requires
        0 <= p <= s.len(),
        forall|k: int| 0 <= k < p ==> #[trigger] s[k] < x,
        p < s.len() ==> x <= s[p],
    ensures
        insert_sorted(s, x) == s.insert(p, x),
    decreases s.len(),
{
    if s.len() == 0 {
        assert(seq![x] =~= s.insert(p, x));
    } else if x <= s[0] {
        assert(seq![x] + s =~= s.insert(p, x));
    } else {
        let rest = s.drop_first();
        assert forall|k: int| 0 <= k < p - 1 implies #[trigger] rest[k] < x by {
            assert(s[k + 1] < x);
        }
        lemma_insert_at(rest, x, p - 1);
        assert(seq![s[0]] + rest.insert(p - 1, x) =~= s.insert(p, x));
    }
}

/// Places `x` into the ascending vector `out` before the first element that
/// is not below it.
fn insert_in_order(out: &mut Vec<u64>, x: u64)
    ensures
        final(out)@ == insert_sorted(old(out)@, x),
{
    let mut p: usize = 0;
    while p < out.len() && out[p] < x
        invariant
            p <= out.len(),
            forall|k: int| 0 <= k < p ==> #[trigger] out@[k] < x,
        decreases out.len() - p,
    {
        p = p + 1;
    }
    proof {
        lemma_insert_at(out@, x, p as int);
    }
    out.insert(p, x);
}

/// An ascending copy of the samples.
fn sorted_copy(v: &[u64]) -> (r: Vec<u64>)
    ensures
        r@ == sort_seq(v@),
{
    let mut out: Vec<u64> = Vec::new();
    let mut i: usize = 0;
    proof {
        assert(v@.take(0) =~= Seq::<u64>::empty());
    }
    while i < v.len()
        invariant
            i <= v.len(),
            out@ == sort_seq(v@.take(i as int)),
        decreases v.len() - i,
    {
        proof {
            let next = v@.take(i + 1);
            assert(next.drop_last() =~= v@.take(i as int));
            assert(next.last() == v@[i as int]);
        }
        insert_in_order(&mut out, v[i]);
        i = i + 1;
    }
    proof {
        assert(v@.take(v@.len() as int) =~= v@);
    }
    out
}

/// Sum of the samples, which cannot overflow 128 bits.
fn total_of(v: &[u64]) -> (r: u128)
    ensures
        r == seq_sum(v@),
        r <= v@.len() * (u64::MAX as int),
{
    let mut total: u128 = 0;
    let mut i: usize = 0;
    while i < v.len()
        invariant
            i <= v.len(),
            total == seq_sum(v@.take(i as int)),
            total <= i * (u64::MAX as int),
        decreases v.len() - i,
    {
        proof {
            let next = v@.take(i + 1);
            assert(next.drop_last() =~= v@.take(i as int));
            let k = i as int;
            assert(k * (u64::MAX as int) + (u64::MAX as int) == (k + 1) * (u64::MAX as int))
                by (nonlinear_arith);
            assert((k + 1) * (u64::MAX as int) <= (usize::MAX as int) * (u64::MAX as int))
                by (nonlinear_arith) requires k + 1 <= usize::MAX;
            assert((usize::MAX as int) * (u64::MAX as int) <= (u64::MAX as int) * (u64::MAX as int))
                by (nonlinear_arith);
        }
        total = total + v[i] as u128;
        i = i + 1;
    }
    proof {
        assert(v@.take(v@.len() as int) =~= v@);
    }
    total
}

/// Median of `s[lo..hi]`.
fn median_in(s: &[u64], lo: usize, hi: usize) -> (r: u64)
    requires
        lo < hi <= s@.len(),
    ensures
        r == median_of(s@.subrange(lo as int, hi as int)),
{
    let n = hi - lo;
    let mid = lo + n / 2;
    if n % 2 == 0 {
        let a = s[mid - 1];
        let b = s[mid];
        ((a as u128 + b as u128) / 2) as u64
    } else {
        s[mid]
    }
}

/// Median of a sorted, non-empty slice: the middle element, or the midpoint
/// of the two middle elements when the length is even.
pub fn median(data: &[u64]) -> (r: u64)
    requires
        data@.len() > 0,
    ensures
        r == median_of(data@),
{
    proof {
        assert(data@.subrange(0, data@.len() as int) =~= data@);
    }
    median_in(data, 0, data.len())
}

/// Summary of the samples; `None` when there are none.
pub fn calc_stats(values: &[u64]) -> (r: Option<StatSummary>)
    ensures
        r == (if values@.len() == 0 { None } else { Some(summary_of(values@)) }),
{
    if values.len() == 0 {
        return None;
    }
    let sorted = sorted_copy(values);
    proof {
        lemma_sort_sorted(values@);
    }
    let n = sorted.len();
    let min = sorted[0];
    let max = sorted[n - 1];
    let median = median_in(sorted.as_slice(), 0, n);
    proof {
        assert(sorted@.subrange(0, n as int) =~= sorted@);
    }
    let (q1, q3) = if n < 4 {
        (min, max)
    } else {
        let half_up = n - n / 2;
        assert(half_up == (n + 1) / 2);
        let lo = median_in(sorted.as_slice(), 0, half_up);
        let hi = median_in(sorted.as_slice(), n / 2, n);
        proof {
            assert(sorted@.subrange(0, ((n + 1) / 2) as int) =~= lower_half(sorted@));
            assert(sorted@.subrange((n / 2) as int, n as int) =~= upper_half(sorted@));
        }
        (lo, hi)
    };
    let total = total_of(values);
    proof {
        let t = total as int;
        let k = n as int;
        assert(t / k <= u64::MAX) by (nonlinear_arith)
            requires t <= k * (u64::MAX as int), k > 0;
    }
    let avg = (total / n as u128) as u64;
    Some(StatSummary { min, q1, median, q3, max, avg })
}

/// For every non-empty sample set the statistics are ordered:
/// `min <= q1 <= median <= q3 <= max`, and the mean lies within `[min, max]`.
pub proof fn lemma_summary_ordered(v: Seq<u64>)
    requires
        v.len() > 0,
    ensures
        summary_of(v).min <= summary_of(v).q1,
        summary_of(v).q1 <= summary_of(v).median,
        summary_of(v).median <= summary_of(v).q3,
        summary_of(v).q3 <= summary_of(v).max,
        summary_of(v).min <= summary_of(v).avg <= summary_of(v).max,
{
    lemma_sort_sorted(v);
    lemma_sort_sum(v);
    let s = sort_seq(v);
    let n = s.len() as int;
    lemma_median_within(s);
    if n >= 4 {
        let lower = lower_half(s);
        let upper = upper_half(s);
        lemma_median_within(lower);
        lemma_median_within(upper);
        assert(s[0] <= lower[0]);
        assert(upper[upper.len() - 1] == s[n - 1]);
        if n % 2 == 0 {
            assert(lower[lower.len() - 1] == s[n / 2 - 1]);
            assert(upper[0] == s[n / 2]);
            assert(s[n / 2 - 1] <= s[n / 2]);
        } else {
            assert(lower[lower.len() - 1] == s[n / 2]);
            assert(upper[0] == s[n / 2]);
        }
    }
    assert forall|i: int| 0 <= i < s.len() implies s[0] <= #[trigger] s[i] <= s[n - 1] by {
        assert(s[0] <= s[i]);
        assert(s[i] <= s[n - 1]);
    }
    lemma_sum_between(s, s[0] as int, s[n - 1] as int);
    let t = seq_sum(v);
    let lo = s[0] as int;
    let hi = s[n - 1] as int;
    assert(lo <= t / n <= hi) by (nonlinear_arith)
        requires n * lo <= t <= n * hi, n > 0;
}

/// Aggregating samples that are already sorted gives the same statistics as
/// aggregating them in the order they came: sorting again changes nothing,
/// so a second run on the sorted input yields an identical result.
pub proof fn lemma_summary_sort_stable(v: Seq<u64>)
    ensures
        sort_seq(sort_seq(v)) == sort_seq(v),
        summary_of(sort_seq(v)) == summary_of(v),
{
    lemma_sort_sorted(v);
    lemma_sort_of_sorted(sort_seq(v));
    lemma_sort_sum(v);
}

} // verus!
