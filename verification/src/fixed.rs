//! Fixed-point arithmetic for the simulation.
//!
//! Coordinates, speeds, radii and hit points are `i64` values carrying
//! [`SCALE`] steps per game unit. Every coordinate write saturates at
//! [`POS_LIMIT`], so squared distances always fit in an `i128`.

use vstd::prelude::*;

verus! {

/// Fixed-point steps per game unit.
pub const SCALE: i64 = 1000;

/// Largest magnitude a world coordinate may take; all coordinate
/// arithmetic saturates here.
pub const POS_LIMIT: i64 = 1_000_000_000_000;

/// `v` pulled into `[lo, hi]`.
pub open spec fn clamp_i(v: int, lo: int, hi: int) -> int {
    if v < lo {
        lo
    } else if v > hi {
        hi
    } else {
        v
    }
}

/// Division by [`SCALE`] that truncates toward zero, as machine division does.
pub open spec fn tdiv_scale(a: int) -> int {
    if a >= 0 {
        a / (SCALE as int)
    } else {
        -((-a) / (SCALE as int))
    }
}

/// `a * b / SCALE` truncated toward zero: the product of two fixed-point
/// quantities, one of which is a plain factor.
pub open spec fn spec_scaled(a: int, b: int) -> int {
    tdiv_scale(a * b)
}

/// Clamps a wide intermediate value into the coordinate range.
pub fn clamp_pos_wide(v: i128) -> (r: i64)
    ensures
        r as int == clamp_i(v as int, -POS_LIMIT as int, POS_LIMIT as int),
{
    if v < -(POS_LIMIT as i128) {
        -POS_LIMIT
    } else if v > POS_LIMIT as i128 {
        POS_LIMIT
    } else {
        v as i64
    }
}

/// Clamps a wide intermediate value into `[lo, hi]`; used for the
/// playfield bounds on player movement.
pub fn clamp_range_wide(v: i128, lo: i64, hi: i64) -> (r: i64)
    requires
        lo <= hi,
    ensures
        r as int == clamp_i(v as int, lo as int, hi as int),
{
    if v < lo as i128 {
        lo
    } else if v > hi as i128 {
        hi
    } else {
        v as i64
    }
}

/// `amount * factor / SCALE` truncated toward zero, computed without
/// overflow in the wide type.
pub fn scaled_wide(amount: i64, factor: i64) -> (r: i128)
    ensures
        r as int == spec_scaled(amount as int, factor as int),
        -0x4000_0000_0000_0000_0000_0000_0000_0000 <= r as int
            <= 0x4000_0000_0000_0000_0000_0000_0000_0000,
{
    proof {
        let a = amount as int;
        let f = factor as int;
        assert(-0x4000_0000_0000_0000_0000_0000_0000_0000 <= a * f
            <= 0x4000_0000_0000_0000_0000_0000_0000_0000) by (nonlinear_arith)
            requires
                -0x8000_0000_0000_0000 <= a <= 0x7FFF_FFFF_FFFF_FFFF,
                -0x8000_0000_0000_0000 <= f <= 0x7FFF_FFFF_FFFF_FFFF,
        ;
    }
    let p: i128 = (amount as i128) * (factor as i128);
    if p >= 0 {
        let q: u128 = (p as u128) / 1000;
        proof {
            assert(q <= p as u128) by (nonlinear_arith)
                requires
                    q == (p as u128) / 1000,
            ;
        }
        q as i128
    } else {
        let q: u128 = ((-p) as u128) / 1000;
        proof {
            assert(q <= (-p) as u128) by (nonlinear_arith)
                requires
                    q == ((-p) as u128) / 1000,
            ;
        }
        -(q as i128)
    }
}

/// A squared length, saturated into `i64`.
pub open spec fn spec_sat_square(a: int) -> int {
    if a * a > i64::MAX as int {
        i64::MAX as int
    } else {
        a * a
    }
}

/// Squares a fixed-point length, saturating into `i64`.
pub fn sat_square(a: i64) -> (r: i64)
    ensures
        r as int == spec_sat_square(a as int),
{
    proof {
        assert(0 <= (a as int) * (a as int)
            <= 0x4000_0000_0000_0000_0000_0000_0000_0000) by (nonlinear_arith)
            requires
                -0x8000_0000_0000_0000 <= a as int <= 0x7FFF_FFFF_FFFF_FFFF,
        ;
    }
    let sq: i128 = (a as i128) * (a as i128);
    if sq > i64::MAX as i128 {
        i64::MAX
    } else {
        sq as i64
    }
}

/// Saturating `i64` subtraction; hit points drop by bullet damage through
/// this, so the difference is always representable.
pub fn sat_sub_i64(a: i64, b: i64) -> (r: i64)
    ensures
        r as int == clamp_i(a - b, i64::MIN as int, i64::MAX as int),
{
    let d: i128 = (a as i128) - (b as i128);
    if d < i64::MIN as i128 {
        i64::MIN
    } else if d > i64::MAX as i128 {
        i64::MAX
    } else {
        d as i64
    }
}

} // verus!
