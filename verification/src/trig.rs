//! Fixed-point trigonometry for bullet headings.
//!
//! Angles are millidegrees. The sine is Bhaskara's classical rational
//! approximation `4x(180 - x) / (40500 - x(180 - x))` on `[0, 180]`
//! degrees, scaled by [`crate::fixed::SCALE`]; it is exact at every
//! multiple of 30 degrees, and the result is pinned to `[-1000, 1000]`.

use vstd::prelude::*;
use crate::fixed::clamp_i;

verus! {

/// A full turn, in millidegrees.
pub const TURN_MDEG: i64 = 360_000;

/// Half a turn, in millidegrees.
pub const HALF_TURN_MDEG: i64 = 180_000;

/// An angle folded into `[0, 360000)` millidegrees.
pub open spec fn spec_norm_mdeg(a: int) -> int {
    if a >= 0 {
        a % (TURN_MDEG as int)
    } else if (-a) % (TURN_MDEG as int) == 0 {
        0
    } else {
        TURN_MDEG - (-a) % (TURN_MDEG as int)
    }
}

/// Scaled sine on the first half turn, `x` in `[0, 180000]` millidegrees.
pub open spec fn spec_sin_half(x: int) -> int {
    let p = x * (HALF_TURN_MDEG - x);
    clamp_i(4000 * p / (40_500_000_000 - p), 0, 1000)
}

/// Scaled sine of a normalized angle `a` in `[0, 360000)` millidegrees.
pub open spec fn spec_sin_mdeg(a: int) -> int {
    if a <= HALF_TURN_MDEG {
        spec_sin_half(a)
    } else {
        -spec_sin_half(a - HALF_TURN_MDEG)
    }
}

/// Scaled cosine of a normalized angle, as the sine a quarter turn on.
pub open spec fn spec_cos_mdeg(a: int) -> int {
    spec_sin_mdeg(spec_norm_mdeg(a + 90_000))
}

/// Folds any millidegree angle into `[0, 360000)`.
pub fn norm_mdeg(a: i64) -> (r: i64)
    ensures
        r as int == spec_norm_mdeg(a as int),
        0 <= r < TURN_MDEG,
{
    if a >= 0 {
        ((a as u64) % 360_000u64) as i64
    } else {
        let m: u64 = (((-(a as i128)) as u128) % 360_000u128) as u64;
        if m == 0 {
            0
        } else {
            360_000i64 - (m as i64)
        }
    }
}

/// Scaled sine on the first half turn.
pub fn sin_half(x: i64) -> (r: i64)
    requires
        0 <= x <= HALF_TURN_MDEG,
    ensures
        r as int == spec_sin_half(x as int),
        0 <= r <= 1000,
{
    proof {
        assert((x as int) * (180_000 - x as int) <= 180_000 * 180_000
            && (x as int) * (180_000 - x as int) >= 0) by (nonlinear_arith)
            requires
                0 <= x as int <= 180_000,
        ;
    }
    let p: u64 = (x as u64) * (180_000u64 - (x as u64));
    let q: u64 = (4000u64 * p) / (40_500_000_000u64 - p);
    if q > 1000 {
        1000
    } else {
        q as i64
    }
}

/// Scaled sine of a normalized millidegree angle.
pub fn sin_mdeg(a: i64) -> (r: i64)
    requires
        0 <= a < TURN_MDEG,
    ensures
        r as int == spec_sin_mdeg(a as int),
        -1000 <= r <= 1000,
{
    if a <= HALF_TURN_MDEG {
        sin_half(a)
    } else {
        -sin_half(a - HALF_TURN_MDEG)
    }
}

/// Scaled cosine of a normalized millidegree angle.
pub fn cos_mdeg(a: i64) -> (r: i64)
    requires
        0 <= a < TURN_MDEG,
    ensures
        r as int == spec_cos_mdeg(a as int),
        -1000 <= r <= 1000,
{
    sin_mdeg(norm_mdeg(a + 90_000))
}

} // verus!
