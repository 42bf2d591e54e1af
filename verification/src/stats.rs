use vstd::prelude::*;
use vstd::arithmetic::div_mod::{
    lemma_div_is_ordered, lemma_div_multiples_vanish, lemma_fundamental_div_mod,
};
use vstd::arithmetic::mul::lemma_mul_inequality;

verus! {

/// Why a measurement session refused to produce a summary.
#[derive(Clone, Copy, Debug, PartialEq, Eq, Structural)]
pub enum TimerError {
    /// A session must execute its work at least once: zero runs leave the
    /// extremes of an empty duration collection undefined.
    ZeroRuns,
}

/// Sum, in nanoseconds, of a sequence of recorded per-run durations.
pub open spec fn sum_nanos(s: Seq<u64>) -> int
    decreases s.len(),
{
    if s.len() == 0 {
        0
    } else {
        sum_nanos(s.drop_last()) + s.last()
    }
}

/// Largest duration of a non-empty sequence of recorded per-run durations.
pub open spec fn max_nanos(s: Seq<u64>) -> u64
    recommends
        s.len() >= 1,
    decreases s.len(),
{
    if s.len() <= 1 {
        s[0]
    } else if s.last() >= max_nanos(s.drop_last()) {
        s.last()
    } else {
        max_nanos(s.drop_last())
    }
}

/// Smallest duration of a non-empty sequence of recorded per-run durations.
pub open spec fn min_nanos(s: Seq<u64>) -> u64
    recommends
        s.len() >= 1,
    decreases s.len(),
{
    if s.len() <= 1 {
        s[0]
    } else if s.last() <= min_nanos(s.drop_last()) {
        s.last()
    } else {
        min_nanos(s.drop_last())
    }
}

/// The quotient `total / runs`, rounded to the nearest whole nanosecond
/// (a fraction of exactly one half rounds up).
pub open spec fn mean_nanos(total: int, runs: int) -> int
    recommends
        runs >= 1,
        total >= 0,
{
    if (total % runs) * 2 >= runs {
        total / runs + 1
    } else {
        total / runs
    }
}

/// Immutable summary of one measurement session. All durations are in whole
/// nanoseconds; a single run longer than `u64::MAX` nanoseconds is recorded
/// as `u64::MAX`.
#[derive(Debug, PartialEq)]
pub struct TimingStats {
    /// Human-readable identifier for the session.
    pub label: String,
    /// Number of iterations executed.
    pub runs: usize,
    /// Sum of all per-run durations.
    pub total_time: u128,
    /// `total_time / runs`, rounded to the nearest nanosecond.
    pub mean: u64,
    /// Largest observed per-run duration.
    pub max: u64,
    /// Smallest observed per-run duration.
    pub min: u64,
}

impl TimingStats {
    /// This summary is exactly the reduction of `samples`, reported under
    /// `label`: the runs are the sample count, the total is the exact sum,
    /// the extremes are the largest and smallest sample, and the mean is the
    /// total over the runs rounded to the nearest nanosecond.
    pub open spec fn summarizes(self, label: Seq<char>, samples: Seq<u64>) -> bool {
        &&& samples.len() >= 1
        &&& self.label@ == label
        &&& self.runs == samples.len()
        &&& self.total_time == sum_nanos(samples)
        &&& self.max == max_nanos(samples)
        &&& self.min == min_nanos(samples)
        &&& self.mean == mean_nanos(sum_nanos(samples), samples.len() as int)
    }

    /// Reduce the recorded per-run durations of one session to its summary.
    pub fn from_samples(label: String, samples: &Vec<u64>) -> (stats: TimingStats)
        requires
            samples@.len() >= 1,
        ensures
            stats.summarizes(label@, samples@),
    {
        let runs: usize = samples.len();
        let mut total: u128 = samples[0] as u128;
        let mut max: u64 = samples[0];
        let mut min: u64 = samples[0];
        let mut i: usize = 1;
        proof {
            let p = samples@.take(1);
            assert(p.len() == 1);
            assert(p.last() == samples@[0]);
            assert(p.drop_last().len() == 0);
            assert(sum_nanos(p.drop_last()) == 0);
            assert(sum_nanos(p) == samples@[0]);
            assert(max_nanos(p) == samples@[0]);
            assert(min_nanos(p) == samples@[0]);
        }
        while i < runs
            invariant
                1 <= i <= runs,
                runs == samples@.len(),
                total == sum_nanos(samples@.take(i as int)),
                max == max_nanos(samples@.take(i as int)),
                min == min_nanos(samples@.take(i as int)),
                total <= (i as int) * (u64::MAX as int),
            decreases runs - i,
        {
            let s: u64 = samples[i];
            proof {
                let prefix = samples@.take(i + 1);
                assert(prefix.drop_last() =~= samples@.take(i as int));
                assert(prefix.last() == samples@[i as int]);
                assert((i + 1) * (u64::MAX as int) == (i as int) * (u64::MAX as int) + u64::MAX);
            }
            total = total + s as u128;
            if s > max {
                max = s;
            }
            if s < min {
                min = s;
            }
            i = i + 1;
        }
        proof {
            assert(samples@.take(runs as int) =~= samples@);
        }
        let mean: u64 = rounded_mean(total, runs, Ghost(samples@));
        TimingStats { label, runs, total_time: total, mean, max, min }
    }
}

/// `total / runs` rounded to the nearest whole nanosecond, where `total` is
/// the exact sum of the non-empty `samples`.
fn rounded_mean(total: u128, runs: usize, samples: Ghost<Seq<u64>>) -> (mean: u64)
    requires
        samples@.len() >= 1,
        runs == samples@.len(),
        total == sum_nanos(samples@),
    ensures
        mean == mean_nanos(total as int, runs as int),
{
    proof {
        lemma_sum_within_extremes(samples@);
        lemma_mean_within_extremes(
            total as int,
            runs as int,
            min_nanos(samples@) as int,
            max_nanos(samples@) as int,
        );
    }
    let runs_w: u128 = runs as u128;
    let quot: u128 = total / runs_w;
    let rem: u128 = total % runs_w;
    if rem * 2 >= runs_w {
        (quot + 1) as u64
    } else {
        quot as u64
    }
}

/// The exact sum of a non-empty sequence of durations lies between the
/// smallest sample times the count and the largest sample times the count.
pub proof fn lemma_sum_within_extremes(s: Seq<u64>)
    requires
        s.len() >= 1,
    ensures
        s.len() * (min_nanos(s) as int) <= sum_nanos(s),
        sum_nanos(s) <= s.len() * (max_nanos(s) as int),
    decreases s.len(),
{
    let lo = min_nanos(s) as int;
    let hi = max_nanos(s) as int;
    let n = s.len() as int;
    if s.len() == 1 {
        assert(s.drop_last().len() == 0);
        assert(sum_nanos(s.drop_last()) == 0);
        assert(sum_nanos(s) == s[0]);
    } else {
        let d = s.drop_last();
        lemma_sum_within_extremes(d);
        let m = d.len() as int;
        let lod = min_nanos(d) as int;
        let hid = max_nanos(d) as int;
        let last = s.last() as int;
        let sd: int = sum_nanos(d);
        assert(lo <= lod && lo <= last && hid <= hi && last <= hi);
        assert(sum_nanos(s) == sd + last);
        assert(n * lo <= sd + last) by (nonlinear_arith)
            requires
                n == m + 1,
                m >= 1,
                lo <= lod,
                lo <= last,
                m * lod <= sd,
        ;
        assert(sd + last <= n * hi) by (nonlinear_arith)
            requires
                n == m + 1,
                m >= 1,
                hid <= hi,
                last <= hi,
                sd <= m * hid,
        ;
    }
}

/// When `runs * lo <= total <= runs * hi`, the rounded mean of `total` over
/// `runs` also lies between `lo` and `hi`.
pub proof fn lemma_mean_within_extremes(total: int, runs: int, lo: int, hi: int)
    requires
        runs >= 1,
        0 <= lo,
        runs * lo <= total,
        total <= runs * hi,
    ensures
        lo <= mean_nanos(total, runs) <= hi,
{
    let quot: int = total / runs;
    let rem: int = total % runs;
    lemma_fundamental_div_mod(total, runs);
    assert(quot >= lo) by {
        vstd::arithmetic::mul::lemma_mul_is_commutative(runs, lo);
        lemma_div_is_ordered(lo * runs, total, runs);
        lemma_div_multiples_vanish(lo, runs);
    }
    assert(quot <= hi) by {
        vstd::arithmetic::mul::lemma_mul_is_commutative(runs, hi);
        lemma_div_is_ordered(total, hi * runs, runs);
        lemma_div_multiples_vanish(hi, runs);
    }
    if rem * 2 >= runs {
        assert(rem >= 1);
        assert(quot < hi) by {
            if quot >= hi {
                lemma_mul_inequality(hi, quot, runs);
                vstd::arithmetic::mul::lemma_mul_is_commutative(hi, runs);
                vstd::arithmetic::mul::lemma_mul_is_commutative(quot, runs);
                assert(total == runs * quot + rem);
                assert(runs * hi <= runs * quot);
                assert(total >= runs * hi + rem);
                assert(false);
            }
        }
    }
}

/// Law: every summary keeps its fields ordered: the smallest observed
/// duration is at most the mean, and the mean is at most the largest.
pub proof fn lemma_summary_ordered(stats: TimingStats, label: Seq<char>, samples: Seq<u64>)
    requires
        stats.summarizes(label, samples),
    ensures
        stats.min <= stats.mean,
        stats.mean <= stats.max,
{
    lemma_sum_within_extremes(samples);
    lemma_mean_within_extremes(
        sum_nanos(samples),
        samples.len() as int,
        min_nanos(samples) as int,
        max_nanos(samples) as int,
    );
}

/// Law: the mean of a summary is the total over the runs exactly, up to the
/// rounding to a whole nanosecond: twice the difference between `mean * runs`
/// and `total_time` is at most `runs` in magnitude.
pub proof fn lemma_mean_is_quotient(stats: TimingStats, label: Seq<char>, samples: Seq<u64>)
    requires
        stats.summarizes(label, samples),
    ensures
        2 * ((stats.mean as int) * (stats.runs as int) - stats.total_time as int) <= stats.runs as int,
        2 * (stats.total_time as int - (stats.mean as int) * (stats.runs as int)) <= stats.runs as int,
{
    let total = stats.total_time as int;
    let runs = stats.runs as int;
    let quot: int = total / runs;
    let rem: int = total % runs;
    lemma_fundamental_div_mod(total, runs);
    assert(total == runs * quot + rem);
    if rem * 2 >= runs {
        assert(stats.mean as int == quot + 1);
        assert((quot + 1) * runs == quot * runs + runs) by (nonlinear_arith);
        vstd::arithmetic::mul::lemma_mul_is_commutative(quot, runs);
        assert((stats.mean as int) * runs - total == runs - rem);
    } else {
        assert(stats.mean as int == quot);
        vstd::arithmetic::mul::lemma_mul_is_commutative(quot, runs);
        assert(total - (stats.mean as int) * runs == rem);
    }
}

/// Law: when every recorded duration is at least `d`, so are the summary's
/// smallest, largest and mean durations, and the total is at least the run
/// count times `d`: overhead only ever adds to a measurement.
pub proof fn lemma_floor_carries_to_summary(
    stats: TimingStats,
    label: Seq<char>,
    samples: Seq<u64>,
    d: u64,
)
    requires
        stats.summarizes(label, samples),
        forall|i: int| 0 <= i < samples.len() ==> samples[i] >= d,
    ensures
        stats.min >= d,
        stats.max >= d,
        stats.mean >= d,
        stats.total_time >= samples.len() * (d as int),
{
    lemma_extremes_at_least(samples, d);
    lemma_sum_within_extremes(samples);
    assert(samples.len() * (d as int) <= samples.len() * (min_nanos(samples) as int)) by {
        lemma_mul_inequality(d as int, min_nanos(samples) as int, samples.len() as int);
        vstd::arithmetic::mul::lemma_mul_is_commutative(samples.len() as int, d as int);
        vstd::arithmetic::mul::lemma_mul_is_commutative(
            samples.len() as int,
            min_nanos(samples) as int,
        );
    }
    lemma_summary_ordered(stats, label, samples);
}

/// When every duration of a non-empty sequence is at least `d`, so are its
/// smallest and largest durations.
proof fn lemma_extremes_at_least(s: Seq<u64>, d: u64)
    requires
        s.len() >= 1,
        forall|i: int| 0 <= i < s.len() ==> s[i] >= d,
    ensures
        min_nanos(s) >= d,
        max_nanos(s) >= d,
    decreases s.len(),
{
    if s.len() > 1 {
        let t = s.drop_last();
        assert(forall|i: int| 0 <= i < t.len() ==> t[i] == s[i]);
        lemma_extremes_at_least(t, d);
    }
}

} // verus!
