//! The driver's accumulation algebra.
//!
//! Each pixel averages the radiance of its samples. Two exact facts carry
//! the estimator's bookkeeping: a run of `2S` samples has exactly the mean
//! of two back-to-back runs of `S` samples each — so doubling the sample
//! count is the same estimator as averaging two halves — and a uniform
//! area-measure estimator of the constant 1, where each of `N` samples
//! carries weight `area / N`, sums to exactly the area. Both are stated
//! over exact integers and rationals; the floating-point accumulator is
//! their rounded image.

use crate::mis::rat_eq;
use vstd::prelude::*;

verus! {

/// The sum of a sequence of integers.
pub open spec fn sum_seq(s: Seq<int>) -> int
    decreases s.len(),
{
    if s.len() == 0 {
        0
    } else {
        sum_seq(s.drop_last()) + s.last()
    }
}

/// Summation splits at any prefix.
pub proof fn lemma_sum_seq_split(s: Seq<int>, n: int)
    requires
        0 <= n <= s.len(),
    ensures
        sum_seq(s) == sum_seq(s.take(n)) + sum_seq(s.skip(n)),
    decreases s.len(),
{
    if n == s.len() {
        assert(s.take(n) =~= s);
        assert(s.skip(n) =~= Seq::<int>::empty());
    } else {
        lemma_sum_seq_split(s.drop_last(), n);
        assert(s.drop_last().take(n) =~= s.take(n));
        assert(s.drop_last().skip(n) =~= s.skip(n).drop_last());
        assert(s.skip(n).last() == s.last());
        assert(s.skip(n).len() > 0);
    }
}

/// The sequence of `n` copies of `c`.
pub open spec fn const_seq(c: int, n: nat) -> Seq<int> {
    Seq::new(n, |i: int| c)
}

/// A constant sequence sums to length times the constant.
pub proof fn lemma_sum_seq_constant(c: int, n: nat)
    ensures
        sum_seq(const_seq(c, n)) == n * c,
    decreases n,
{
    let s = const_seq(c, n);
    if n > 0 {
        lemma_sum_seq_constant(c, (n - 1) as nat);
        assert(s.drop_last() =~= const_seq(c, (n - 1) as nat));
        assert((n - 1) * c + c == n * c) by (nonlinear_arith);
    } else {
        assert(s.len() == 0);
        assert(sum_seq(s) == 0);
    }
}

/// Averaging is two-batch consistent: the mean of `2n` samples equals the
/// mean of the two batch means, exactly —
/// `sum(s) / 2n == (sum(first n)/n + sum(last n)/n) / 2`.
pub proof fn lemma_two_batch_average(s: Seq<int>, n: int)
    requires
        n >= 1,
        s.len() == 2 * n,
    ensures
        rat_eq(
            sum_seq(s),
            2 * n,
            sum_seq(s.take(n)) * n + sum_seq(s.skip(n)) * n,
            2 * n * n,
        ),
{
    lemma_sum_seq_split(s, n);
    let a = sum_seq(s.take(n));
    let b = sum_seq(s.skip(n));
    assert((a + b) * (2 * n * n) == (a * n + b * n) * (2 * n)) by (nonlinear_arith);
}

/// The uniform-area estimator of the constant 1 is exact: `N` samples of
/// value 1, each weighted `area / N`, sum to exactly the area.
pub proof fn lemma_unit_estimator_is_exact(area: int, n: nat)
    requires
        n >= 1,
    ensures
        rat_eq(sum_seq(const_seq(1, n)) * area, n as int, area, 1),
{
    lemma_sum_seq_constant(1, n);
    assert(n as int * 1 * area * 1 == area * (n as int)) by (nonlinear_arith);
}

} // verus!
