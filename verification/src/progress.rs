//! Progress reporting: the completion percentage, in hundredths of a
//! percent, after a number of units out of a total have finished. It is
//! monotone in the number of finished units and reaches exactly 100.00%
//! when all have.

use vstd::prelude::*;
use vstd::arithmetic::div_mod::{lemma_div_is_ordered, lemma_div_multiples_vanish};
use vstd::arithmetic::mul::lemma_mul_inequality;

verus! {

/// The completion percentage in hundredths of a percent, truncated toward
/// zero.
pub open spec fn spec_progress(done: int, total: int) -> int
    recommends
        1 <= total,
{
    done * 10000 / total
}

/// Hundredths of a percent completed after `done` of `total` units.
pub fn progress_hundredths(done: u64, total: u64) -> (r: u64)
    requires
        1 <= total,
        done <= total,
    ensures
        r == spec_progress(done as int, total as int),
        r <= 10000,
        done == total ==> r == 10000,
{
    proof {
        lemma_progress_le(done as int, total as int);
    }
    ((done as u128) * 10000 / (total as u128)) as u64
}

/// Finished units never report more than 100.00%.
proof fn lemma_progress_le(done: int, total: int)
    requires
        1 <= total,
        0 <= done <= total,
    ensures
        0 <= spec_progress(done, total) <= 10000,
        done == total ==> spec_progress(done, total) == 10000,
{
    lemma_mul_inequality(done, total, 10000);
    assert(total * 10000 == 10000 * total) by (nonlinear_arith);
    lemma_div_is_ordered(done * 10000, total * 10000, total);
    lemma_div_multiples_vanish(10000, total);
    vstd::arithmetic::mul::lemma_mul_nonnegative(done, 10000);
    vstd::arithmetic::div_mod::lemma_div_pos_is_pos(done * 10000, total);
}

/// The progress indicator is monotone: more finished units never report a
/// smaller percentage.
pub proof fn lemma_progress_monotonic(d1: int, d2: int, total: int)
    requires
        1 <= total,
        0 <= d1 <= d2,
    ensures
        spec_progress(d1, total) <= spec_progress(d2, total),
{
    lemma_mul_inequality(d1, d2, 10000);
    lemma_div_is_ordered(d1 * 10000, d2 * 10000, total);
}

} // verus!
