//! Reduction of the duration samples of one key to a fixed statistic tuple.

use vstd::prelude::*;
use vstd::relations::{sorted_by, total_ordering};
use vstd::seq_lib::{group_to_multiset_ensures, lemma_sorted_unique};

verus! {

/// Count, truncated mean and three order statistics of a multiset of samples.
#[derive(Clone, Copy, Debug, PartialEq, Eq, Structural)]
pub struct TimeSeriesInfo {
    pub count: u64,
    pub lower_median: u64,
    pub median: u64,
    pub higher_median: u64,
    pub average: u64,
}

/// The order by which samples are ranked.
pub open spec fn at_most() -> spec_fn(u64, u64) -> bool {
    |a: u64, b: u64| a <= b
}

/// The samples in ascending order.
pub open spec fn ascending(samples: Seq<u64>) -> Seq<u64> {
    samples.sort_by(at_most())
}

/// The sum of the samples.
pub open spec fn total(samples: Seq<u64>) -> nat
    decreases samples.len(),
{
    if samples.len() == 0 {
        0
    } else {
        total(samples.drop_last()) + samples.last() as nat
    }
}

/// Index of the median among `n` ranked samples.
pub open spec fn median_pos(n: nat) -> int {
    n as int / 2
}

/// Distance from the median to the lower and the higher median.
pub open spec fn median_dif(n: nat) -> int {
    median_pos(n) / 2
}

/// The statistic tuple of a series: all zero for no samples, the one sample
/// four times for a single one, and otherwise the samples at ranks `p - d`,
/// `p` and `p + d`, where `p` is half the count and `d` half of `p`, beside
/// the mean rounded down.
pub open spec fn summary(samples: Seq<u64>) -> TimeSeriesInfo {
    let n = samples.len();
    if n == 0 {
        TimeSeriesInfo { count: 0, lower_median: 0, median: 0, higher_median: 0, average: 0 }
    } else if n == 1 {
        TimeSeriesInfo {
            count: 1,
            lower_median: samples[0],
            median: samples[0],
            higher_median: samples[0],
            average: samples[0],
        }
    } else {
        let ranked = ascending(samples);
        TimeSeriesInfo {
            count: n as u64,
            lower_median: ranked[median_pos(n) - median_dif(n)],
            median: ranked[median_pos(n)],
            higher_median: ranked[median_pos(n) + median_dif(n)],
            average: (total(samples) / n) as u64,
        }
    }
}

/// `slice::sort` of std, on a vector of `u64`. Believed of it: afterwards the
/// vector is in ascending order and holds the values it held before, each as
/// often as before.
#[verifier::external_body]
fn sort_samples(samples: &mut Vec<u64>)
    ensures
        sorted_by(final(samples)@, at_most()),
        final(samples)@.to_multiset() == old(samples)@.to_multiset(),
{
    samples.sort();
}

proof fn lemma_at_most_total()
    ensures
        total_ordering(at_most()),
{
}

/// Taking one sample out lowers the sum by that sample.
proof fn lemma_total_remove(samples: Seq<u64>, i: int)
    requires
        0 <= i < samples.len(),
    ensures
        total(samples) == total(samples.remove(i)) + samples[i] as nat,
    decreases samples.len(),
{
    if i == samples.len() - 1 {
        assert(samples.remove(i) =~= samples.drop_last());
    } else {
        lemma_total_remove(samples.drop_last(), i);
        assert(samples.drop_last().remove(i) =~= samples.remove(i).drop_last());
        assert(samples.remove(i).last() == samples.last());
    }
}

/// The sum does not depend on the order of the samples.
pub proof fn lemma_total_permutation(a: Seq<u64>, b: Seq<u64>)
    requires
        a.to_multiset() == b.to_multiset(),
    ensures
        total(a) == total(b),
    decreases a.len(),
{
    broadcast use group_to_multiset_ensures;

    a.to_multiset_ensures();
    b.to_multiset_ensures();
    assert(a.len() == b.len());
    if a.len() > 0 {
        let x = a.last();
        assert(a.drop_last().push(x) =~= a);
        assert(a.to_multiset().count(x) > 0);
        assert(b.contains(x));
        let i = choose|i: int| 0 <= i < b.len() && b[i] == x;
        assert(a.drop_last() =~= a.remove(a.len() - 1));
        assert(a.drop_last().to_multiset() =~= b.remove(i).to_multiset());
        lemma_total_permutation(a.drop_last(), b.remove(i));
        lemma_total_remove(b, i);
    }
}

/// The sum of `n` samples is at most `n` times the largest `u64`.
pub proof fn lemma_total_bound(samples: Seq<u64>)
    ensures
        total(samples) <= samples.len() * u64::MAX,
    decreases samples.len(),
{
    if samples.len() > 0 {
        lemma_total_bound(samples.drop_last());
        assert(samples.len() * u64::MAX == (samples.len() - 1) * u64::MAX + u64::MAX)
            by (nonlinear_arith);
    }
}

/// The mean of `u64` samples fits in a `u64`.
pub proof fn lemma_mean_fits(samples: Seq<u64>)
    requires
        samples.len() > 0,
    ensures
        total(samples) / samples.len() <= u64::MAX,
{
    lemma_total_bound(samples);
    let n = samples.len() as int;
    let t = total(samples) as int;
    assert(t / n <= u64::MAX) by (nonlinear_arith)
        requires
            n > 0,
            0 <= t <= n * u64::MAX,
    ;
}

/// A sequence that is in ascending order and holds the same samples is the
/// ranking of those samples.
pub proof fn lemma_ranking_unique(sorted: Seq<u64>, samples: Seq<u64>)
    requires
        sorted_by(sorted, at_most()),
        sorted.to_multiset() == samples.to_multiset(),
    ensures
        sorted == ascending(samples),
{
    lemma_at_most_total();
    samples.lemma_sort_by_ensures(at_most());
    lemma_sorted_unique(sorted, ascending(samples), at_most());
}

/// The ranking holds the samples, each as often as it was recorded, in
/// ascending order.
pub proof fn lemma_ranking(samples: Seq<u64>)
    ensures
        ascending(samples).len() == samples.len(),
        ascending(samples).to_multiset() == samples.to_multiset(),
        forall|i: int, j: int|
            0 <= i <= j < samples.len() ==> ascending(samples)[i] <= ascending(samples)[j],
{
    lemma_at_most_total();
    samples.lemma_sort_by_ensures(at_most());
    samples.to_multiset_ensures();
    ascending(samples).to_multiset_ensures();
    assert forall|i: int, j: int| 0 <= i <= j < samples.len() implies ascending(samples)[i]
        <= ascending(samples)[j] by {
        if i < j {
            assert(at_most()(ascending(samples)[i], ascending(samples)[j]));
        }
    }
}

/// The count of a summary is the number of samples, whatever the samples.
pub proof fn lemma_summary_count(input: Vec<u64>)
    ensures
        summary(input@).count == input@.len(),
        summary(input@).count == input@.to_multiset().len(),
{
    assert(input@.len() == input.len());
    input@.to_multiset_ensures();
}

/// The summary of no samples is zero in every field.
pub proof fn lemma_summary_empty()
    ensures
        summary(Seq::empty()) == (TimeSeriesInfo {
            count: 0,
            lower_median: 0,
            median: 0,
            higher_median: 0,
            average: 0,
        }),
{
}

/// The summary of a single sample holds that sample as mean and as each of
/// the three medians.
pub proof fn lemma_summary_singleton(value: u64)
    ensures
        summary(seq![value]) == (TimeSeriesInfo {
            count: 1,
            lower_median: value,
            median: value,
            higher_median: value,
            average: value,
        }),
{
}

/// The mean of a summary is the sum of the samples divided by their number,
/// rounded down.
pub proof fn lemma_summary_average(samples: Seq<u64>)
    requires
        samples.len() > 0,
    ensures
        summary(samples).average == total(samples) / samples.len(),
{
    lemma_mean_fits(samples);
    if samples.len() == 1 {
        assert(samples.drop_last() =~= Seq::<u64>::empty());
        reveal_with_fuel(total, 2);
    }
}

/// The three medians of a summary are samples, and come in order: the lower
/// one is at most the median, which is at most the higher one.
pub proof fn lemma_summary_medians(samples: Seq<u64>)
    requires
        samples.len() > 0,
    ensures
        summary(samples).lower_median <= summary(samples).median <= summary(
            samples,
        ).higher_median,
        samples.contains(summary(samples).lower_median),
        samples.contains(summary(samples).median),
        samples.contains(summary(samples).higher_median),
{
    let n = samples.len();
    if n == 1 {
        assert(samples.contains(samples[0]));
    } else {
        lemma_ranking(samples);
        let ranked = ascending(samples);
        let p = median_pos(n);
        let d = median_dif(n);
        assert(0 <= p - d <= p <= p + d < n);
        ranked.to_multiset_ensures();
        samples.to_multiset_ensures();
        assert(ranked.contains(ranked[p - d]));
        assert(ranked.contains(ranked[p]));
        assert(ranked.contains(ranked[p + d]));
        assert(samples.to_multiset().count(ranked[p - d]) > 0);
        assert(samples.to_multiset().count(ranked[p]) > 0);
        assert(samples.to_multiset().count(ranked[p + d]) > 0);
    }
}

/// A summary does not depend on the order in which the samples arrived.
pub proof fn lemma_summary_order_independent(a: Seq<u64>, b: Seq<u64>)
    requires
        a.to_multiset() == b.to_multiset(),
    ensures
        summary(a) == summary(b),
{
    a.to_multiset_ensures();
    b.to_multiset_ensures();
    assert(a.len() == b.len());
    if a.len() == 1 {
        assert(a.to_multiset().count(a[0]) > 0);
        assert(b.contains(a[0]));
    } else if a.len() > 1 {
        lemma_ranking(a);
        lemma_ranking_unique(ascending(a), b);
        lemma_total_permutation(a, b);
    }
}

impl vstd::std_specs::convert::FromSpecImpl<Vec<u64>> for TimeSeriesInfo {
    open spec fn obeys_from_spec() -> bool {
        true
    }

    open spec fn from_spec(input: Vec<u64>) -> Self {
        summary(input@)
    }
}

impl From<Vec<u64>> for TimeSeriesInfo {
    /// Reduces the samples recorded under one key to their summary.
    fn from(input: Vec<u64>) -> (info: Self) {
        let mut input = input;
        let count: usize = input.len();
        if count == 0 {
            return TimeSeriesInfo {
                count: 0,
                lower_median: 0,
                median: 0,
                higher_median: 0,
                average: 0,
            };
        }
        if count == 1 {
            let only_value: u64 = input[0];
            return TimeSeriesInfo {
                count: 1,
                lower_median: only_value,
                median: only_value,
                higher_median: only_value,
                average: only_value,
            };
        }
        let ghost samples = input@;
        sort_samples(&mut input);
        proof {
            input@.to_multiset_ensures();
            samples.to_multiset_ensures();
            lemma_ranking_unique(input@, samples);
            lemma_total_permutation(input@, samples);
            lemma_total_bound(samples);
            lemma_mean_fits(samples);
        }
        let median_pos: usize = count / 2;
        let median_dif: usize = median_pos / 2;
        let sum: u128 = sum_of(&input);
        let average: u64 = (sum / (count as u128)) as u64;
        TimeSeriesInfo {
            count: count as u64,
            lower_median: input[median_pos - median_dif],
            median: input[median_pos],
            higher_median: input[median_pos + median_dif],
            average,
        }
    }
}

/// Adds the samples up without loss.
fn sum_of(samples: &Vec<u64>) -> (sum: u128)
    ensures
        sum == total(samples@),
{
    let mut sum: u128 = 0;
    let mut i: usize = 0;
    while i < samples.len()
        invariant
            i <= samples.len(),
            sum == total(samples@.take(i as int)),
            sum <= i * u64::MAX,
        decreases samples.len() - i,
    {
        proof {
            assert(samples@.take(i + 1).drop_last() =~= samples@.take(i as int));
            assert((i + 1) * u64::MAX == i * u64::MAX + u64::MAX) by (nonlinear_arith);
            assert(i * u64::MAX <= usize::MAX * u64::MAX) by (nonlinear_arith)
                requires
                    i <= usize::MAX,
            ;
        }
        sum = sum + samples[i] as u128;
        i = i + 1;
    }
    proof {
        assert(samples@.take(i as int) =~= samples@);
    }
    sum
}

} // verus!
