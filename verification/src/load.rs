//! The CPU load of one sampling cycle: the mean of the per-core readings.

use vstd::prelude::*;
use crate::units::Percent;

verus! {

/// The sum of all readings.
pub open spec fn total(usage: Seq<int>) -> int
    decreases usage.len(),
{
    if usage.len() == 0 {
        0
    } else {
        total(usage.drop_last()) + usage.last()
    }
}

/// The unweighted arithmetic mean of the readings, rounded down to a whole
/// thousandth.
pub open spec fn mean(usage: Seq<int>) -> int
    recommends
        usage.len() > 0,
{
    total(usage) / (usage.len() as int)
}

/// The sum of readings that all lie in `lo..=hi` lies in `n * lo..=n * hi`.
pub proof fn lemma_total_bounds(usage: Seq<int>, lo: int, hi: int)
    requires
        forall|i: int| 0 <= i < usage.len() ==> lo <= #[trigger] usage[i] <= hi,
    ensures
        usage.len() * lo <= total(usage) <= usage.len() * hi,
    decreases usage.len(),
{
    if usage.len() > 0 {
        let init = usage.drop_last();
        lemma_total_bounds(init, lo, hi);
        assert(usage.len() * lo == init.len() * lo + lo) by (nonlinear_arith)
            requires
                usage.len() == init.len() + 1,
        ;
        assert(usage.len() * hi == init.len() * hi + hi) by (nonlinear_arith)
            requires
                usage.len() == init.len() + 1,
        ;
    }
}

/// The mean is the exact average rounded down: it is the one integer `m` with
/// `n * m <= total < n * (m + 1)`.
pub proof fn lemma_mean_is_floor_of_average(usage: Seq<int>)
    requires
        usage.len() > 0,
    ensures
        usage.len() * mean(usage) <= total(usage) < usage.len() * (mean(usage) + 1),
{
    let n = usage.len() as int;
    let t = total(usage);
    assert(n * (t / n) <= t < n * (t / n + 1)) by (nonlinear_arith)
        requires
            n > 0,
    ;
}

/// The mean of readings that all lie in `lo..=hi` lies in `lo..=hi` too.  In
/// particular the load stays within 0 % and 100 % when every core does.
pub proof fn lemma_mean_within_bounds(usage: Seq<int>, lo: int, hi: int)
    requires
        usage.len() > 0,
        forall|i: int| 0 <= i < usage.len() ==> lo <= #[trigger] usage[i] <= hi,
    ensures
        lo <= mean(usage) <= hi,
{
    lemma_total_bounds(usage, lo, hi);
    let n = usage.len() as int;
    let t = total(usage);
    assert(lo <= t / n <= hi) by (nonlinear_arith)
        requires
            n > 0,
            n * lo <= t <= n * hi,
    ;
}

/// The mean of the per-core readings, or `None` when there is no reading.
pub fn average_load(usage: &Vec<Percent>) -> (load: Option<Percent>)
    ensures
        match load {
            Some(p) => usage@.len() > 0 && p@ == mean(usage.deep_view()),
            None => usage@.len() == 0,
        },
{
    let n = usage.len();
    if n == 0 {
        return None;
    }
    let ghost values = usage.deep_view();
    let mut sum: u128 = 0;
    let mut i: usize = 0;
    while i < n
        invariant
            i <= n,
            n == usage@.len(),
            values == usage.deep_view(),
            sum == total(values.take(i as int)),
            sum <= i * u32::MAX,
        decreases n - i,
    {
        proof {
            assert(values.take(i + 1).drop_last() =~= values.take(i as int));
        }
        sum = sum + usage[i].thousandths() as u128;
        i = i + 1;
    }
    proof {
        assert(values.take(n as int) =~= values);
        assert(sum / (n as u128) <= u32::MAX) by (nonlinear_arith)
            requires
                n > 0,
                sum <= n * u32::MAX,
        ;
    }
    let m = sum / (n as u128);
    Some(Percent::from_thousandths(m as u32))
}

} // verus!
