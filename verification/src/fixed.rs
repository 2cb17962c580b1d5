//! Fixed-point quantities: an `i64` that counts millionths.

use vstd::prelude::*;

verus! {

/// The fixed-point value of 1.
pub const SCALE: i64 = 1_000_000;

/// `v` brought into the range of `i64`: values beyond an end stay at that end.
pub open spec fn saturate(v: int) -> int {
    if v < i64::MIN {
        i64::MIN as int
    } else if v > i64::MAX {
        i64::MAX as int
    } else {
        v
    }
}

/// The sum of `a` and `b`, held at the nearer end of `i64` where it does not fit.
pub fn saturating_sum(a: i64, b: i64) -> (sum: i64)
    ensures
        sum == saturate(a + b),
{
    let wide: i128 = a as i128 + b as i128;
    if wide > i64::MAX as i128 {
        i64::MAX
    } else if wide < i64::MIN as i128 {
        i64::MIN
    } else {
        wide as i64
    }
}

/// Saturation never moves a sum further from `a` than `b` asked for, nor in the
/// other direction.
pub proof fn lemma_saturated_sum_between(a: i64, b: int)
    ensures
        b >= 0 ==> a <= saturate(a + b) <= a + b,
        b <= 0 ==> a + b <= saturate(a + b) <= a,
{
}

} // verus!
