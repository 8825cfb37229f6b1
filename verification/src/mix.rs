//! Mixing amplitudes in fixed point.
//!
//! A combination sounds as loud as the mean of its generators, never as
//! their sum. The mean is taken on fixed-point amplitudes, where it is exact
//! and stays within the range of what was mixed.

use vstd::arithmetic::div_mod::{lemma_div_is_ordered, lemma_div_multiples_vanish};
use vstd::prelude::*;

verus! {

/// The fixed-point amplitude of full scale: the integer that stands for an
/// amplitude of one. Minus one is its negative.
pub const FULL_SCALE: i32 = 0x4000_0000;

/// The sum of `amplitudes`.
pub open spec fn sum_of(amplitudes: Seq<i32>) -> int
    decreases amplitudes.len(),
{
    if amplitudes.len() == 0 {
        0
    } else {
        sum_of(amplitudes.drop_last()) + amplitudes.last()
    }
}

/// The quotient of `sum` by `count`, rounded toward zero.
pub open spec fn quotient_toward_zero(sum: int, count: int) -> int
    recommends
        count > 0,
{
    if sum >= 0 {
        sum / count
    } else {
        -((-sum) / count)
    }
}

/// The arithmetic mean of `amplitudes`, rounded toward zero.
pub open spec fn mean_of(amplitudes: Seq<i32>) -> int
    recommends
        amplitudes.len() > 0,
{
    quotient_toward_zero(sum_of(amplitudes), amplitudes.len() as int)
}

/// A sum lies between the count times a lower and an upper bound of its
/// terms.
pub proof fn lemma_sum_bounds(amplitudes: Seq<i32>, low: int, high: int)
    requires
        forall|i: int| 0 <= i < amplitudes.len() ==> low <= #[trigger] amplitudes[i] <= high,
    ensures
        amplitudes.len() * low <= sum_of(amplitudes) <= amplitudes.len() * high,
    decreases amplitudes.len(),
{
    if amplitudes.len() > 0 {
        let front = amplitudes.drop_last();
        assert forall|i: int| 0 <= i < front.len() implies low <= #[trigger] front[i] <= high by {
            assert(front[i] == amplitudes[i]);
        }
        lemma_sum_bounds(front, low, high);
        let count = amplitudes.len() as int;
        assert((count - 1) * low + low == count * low) by (nonlinear_arith);
        assert((count - 1) * high + high == count * high) by (nonlinear_arith);
    } else {
        assert(0 * low == 0 && 0 * high == 0);
    }
}

/// A quotient rounded toward zero lies between any two bounds that, taken
/// `count` times, enclose the dividend.
pub proof fn lemma_quotient_bounds(sum: int, count: int, low: int, high: int)
    requires
        count > 0,
        count * low <= sum <= count * high,
    ensures
        low <= quotient_toward_zero(sum, count) <= high,
{
    lemma_div_multiples_vanish(low, count);
    lemma_div_multiples_vanish(high, count);
    lemma_div_multiples_vanish(-low, count);
    lemma_div_multiples_vanish(-high, count);
    assert(count * (-low) == -(count * low)) by (nonlinear_arith);
    assert(count * (-high) == -(count * high)) by (nonlinear_arith);
    if sum >= 0 {
        lemma_div_is_ordered(count * low, sum, count);
        lemma_div_is_ordered(sum, count * high, count);
    } else {
        lemma_div_is_ordered(count * (-high), -sum, count);
        lemma_div_is_ordered(-sum, count * (-low), count);
    }
}

/// The mean never leaves the range of what is mixed. In particular, the
/// mean of amplitudes within full scale is within full scale, however many
/// are mixed.
pub proof fn lemma_mean_within_range(amplitudes: Seq<i32>, low: int, high: int)
    requires
        amplitudes.len() > 0,
        forall|i: int| 0 <= i < amplitudes.len() ==> low <= #[trigger] amplitudes[i] <= high,
    ensures
        low <= mean_of(amplitudes) <= high,
{
    lemma_sum_bounds(amplitudes, low, high);
    lemma_quotient_bounds(sum_of(amplitudes), amplitudes.len() as int, low, high);
}

/// The mean of equal amplitudes is that amplitude: generators in unison
/// sound exactly like one of them.
pub proof fn lemma_mean_of_equal(amplitudes: Seq<i32>, amplitude: i32)
    requires
        amplitudes.len() > 0,
        forall|i: int| 0 <= i < amplitudes.len() ==> amplitudes[i] == amplitude,
    ensures
        mean_of(amplitudes) == amplitude,
{
    lemma_mean_within_range(amplitudes, amplitude as int, amplitude as int);
}

/// Takes the mean of `amplitudes`, rounded toward zero. There is no mean
/// of nothing.
pub fn mean_amplitude(amplitudes: &[i32]) -> (mean: Option<i32>)
    ensures
        mean.is_some() <==> amplitudes@.len() > 0,
        mean.is_some() ==> mean.unwrap() == mean_of(amplitudes@),
{
    let count = amplitudes.len();
    if count == 0 {
        return None;
    }
    let mut sum: i128 = 0;
    let mut seen: usize = 0;
    while seen < count
        invariant
            seen <= count,
            count == amplitudes@.len(),
            sum == sum_of(amplitudes@.take(seen as int)),
            seen * (i32::MIN as int) <= sum <= seen * (i32::MAX as int),
        decreases count - seen,
    {
        proof {
            let next = amplitudes@.take(seen + 1);
            assert(next.drop_last() =~= amplitudes@.take(seen as int));
            assert(next.last() == amplitudes@[seen as int]);
            assert((seen + 1) * (i32::MIN as int) == seen * (i32::MIN as int) + i32::MIN)
                by (nonlinear_arith);
            assert((seen + 1) * (i32::MAX as int) == seen * (i32::MAX as int) + i32::MAX)
                by (nonlinear_arith);
            assert(seen * (i32::MAX as int) <= usize::MAX * (i32::MAX as int))
                by (nonlinear_arith)
                requires
                    seen <= usize::MAX,
            ;
            assert(seen * (i32::MIN as int) >= usize::MAX * (i32::MIN as int))
                by (nonlinear_arith)
                requires
                    seen <= usize::MAX,
            ;
        }
        sum = sum + amplitudes[seen] as i128;
        seen = seen + 1;
    }
    proof {
        assert(amplitudes@.take(count as int) =~= amplitudes@);
        lemma_mean_within_range(amplitudes@, i32::MIN as int, i32::MAX as int);
    }
    let parts: i128 = count as i128;
    let mean: i128 = if sum >= 0 {
        sum / parts
    } else {
        -((-sum) / parts)
    };
    Some(mean as i32)
}

} // verus!
