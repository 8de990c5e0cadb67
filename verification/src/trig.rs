//! Trigonometry on fixed-point angles in degrees.
//!
//! Rotation matrices need the sine and cosine of rotation angles. Both are
//! computed exactly in integer arithmetic from Bhaskara's rational
//! approximation `sin x ~ 4x(180 - x) / (40500 - x(180 - x))` on a half
//! turn, extended to all angles by symmetry. The approximation stays within
//! about two thousandths of the true sine, is exact at every multiple of a
//! quarter turn, and makes every matrix entry a deterministic function of
//! the stored angles.
use vstd::prelude::*;

use crate::fixed::{Fixed, spec_rem_trunc, DEG_180, DEG_360, DEG_90, UNIT};

verus! {

/// Bhaskara's constant `40500` in squared-degree fixed-point units.
pub const BHASKARA_DEN: i64 = 40_500_000_000_000_000;

/// An angle folded into `[0, 360)` degrees.
pub open spec fn spec_reduce_angle(x: Fixed) -> int {
    let r = spec_rem_trunc(x as int, DEG_360 as int);
    if r < 0 {
        r + DEG_360
    } else {
        r
    }
}

/// The sine of an angle in `[0, 180]` degrees, scaled by `UNIT`.
pub open spec fn spec_sin_half(x: int) -> int {
    let p = x * (DEG_180 - x) / (UNIT as int);
    4 * p * (UNIT as int) / (BHASKARA_DEN as int / UNIT as int - p)
}

/// The sine of an angle in `[0, 360)` degrees, scaled by `UNIT`.
pub open spec fn spec_sin_core(r: int) -> int {
    if r <= DEG_180 {
        spec_sin_half(r)
    } else {
        -spec_sin_half(r - DEG_180)
    }
}

/// The sine of an arbitrary angle in degrees, scaled by `UNIT`.
pub open spec fn spec_sin(x: Fixed) -> int {
    spec_sin_core(spec_reduce_angle(x))
}

/// The cosine of an arbitrary angle in degrees, scaled by `UNIT`.
pub open spec fn spec_cos(x: Fixed) -> int {
    let r = spec_reduce_angle(x) + DEG_90;
    if r >= DEG_360 {
        spec_sin_core(r - DEG_360)
    } else {
        spec_sin_core(r)
    }
}

/// Folds an angle into `[0, 360)` degrees.
pub fn reduce_angle(x: Fixed) -> (r: Fixed)
    ensures
        r as int == spec_reduce_angle(x),
        0 <= r < DEG_360,
{
    let rem = crate::fixed::rem_f(x, DEG_360);
    if rem < 0 {
        rem + DEG_360
    } else {
        rem
    }
}

/// The sine of an angle in `[0, 180]` degrees.
fn sin_half(x: i64) -> (r: i64)
    requires
        0 <= x <= DEG_180,
    ensures
        r as int == spec_sin_half(x as int),
        0 <= r <= UNIT,
{
    proof {
        assert((x as int) * (DEG_180 - x as int) <= 8_100_000_000_000_000 && 0 <= (x as int) * (
        DEG_180 - x as int)) by (nonlinear_arith)
            requires
                0 <= x as int <= DEG_180 as int,
        ;
    }
    let wide: u128 = (x as u128) * ((DEG_180 - x) as u128);
    let p: u128 = wide / (UNIT as u128);
    proof {
        assert(p <= 8_100_000_000) by (nonlinear_arith)
            requires
                p == wide as int / 1_000_000,
                0 <= wide as int <= 8_100_000_000_000_000,
        ;
    }
    let num: u128 = 4 * p * (UNIT as u128);
    let den: u128 = 40_500_000_000u128 - p;
    assert(den as int == BHASKARA_DEN as int / UNIT as int - p);
    let r: u128 = num / den;
    proof {
        assert(num <= den * 1_000_000) by (nonlinear_arith)
            requires
                num == 4 * p * 1_000_000,
                den == 40_500_000_000 - p,
                0 <= p <= 8_100_000_000,
        ;
        assert(num / den <= 1_000_000) by (nonlinear_arith)
            requires
                num <= den * 1_000_000,
                0 < den,
        ;
    }
    r as i64
}

/// The sine of an arbitrary angle in degrees.
pub fn sin_f(x: Fixed) -> (r: Fixed)
    ensures
        r as int == spec_sin(x),
        -UNIT <= r <= UNIT,
{
    let a = reduce_angle(x);
    if a <= DEG_180 {
        sin_half(a)
    } else {
        -sin_half(a - DEG_180)
    }
}

/// The cosine of an arbitrary angle in degrees.
pub fn cos_f(x: Fixed) -> (r: Fixed)
    ensures
        r as int == spec_cos(x),
        -UNIT <= r <= UNIT,
{
    let a = reduce_angle(x);
    let shifted: i64 = if a + DEG_90 >= DEG_360 {
        a + DEG_90 - DEG_360
    } else {
        a + DEG_90
    };
    if shifted <= DEG_180 {
        sin_half(shifted)
    } else {
        -sin_half(shifted - DEG_180)
    }
}

} // verus!
