//! Fixed-point scalars.
//!
//! Every scalar quantity of the runtime (positions, rotation angles in
//! degrees, scale factors, viewport coordinates, frame times in
//! milliseconds) is a fixed-point number with six decimal places, kept in an
//! `i64`: the value `1_500_000` stands for `1.5`. Arithmetic saturates at
//! the representable range and division by zero yields zero, so every
//! operation is total and its result is pinned exactly by its contract.
use vstd::prelude::*;

verus! {

/// A fixed-point scalar: the represented value times `UNIT`.
pub type Fixed = i64;

/// The representation of `1.0`.
pub const UNIT: i64 = 1_000_000;

/// The representation of `360.0`, one full turn in degrees.
pub const DEG_360: i64 = 360_000_000;

/// The representation of `90.0`, a quarter turn in degrees.
pub const DEG_90: i64 = 90_000_000;

/// The representation of `180.0`, a half turn in degrees.
pub const DEG_180: i64 = 180_000_000;

pub open spec fn abs_int(v: int) -> int {
    if v < 0 {
        -v
    } else {
        v
    }
}

/// Saturation of a mathematical integer into the `i64` range.
pub open spec fn spec_clamp(v: int) -> int {
    if v > i64::MAX as int {
        i64::MAX as int
    } else if v < i64::MIN as int {
        i64::MIN as int
    } else {
        v
    }
}

/// Division truncated toward zero, total: division by zero yields zero.
pub open spec fn spec_div_trunc(a: int, b: int) -> int {
    if b == 0 {
        0
    } else if (a < 0) == (b < 0) {
        abs_int(a) / abs_int(b)
    } else {
        -(abs_int(a) / abs_int(b))
    }
}

/// Remainder truncated toward zero: the sign follows the dividend.
pub open spec fn spec_rem_trunc(a: int, m: int) -> int {
    if a >= 0 {
        a % m
    } else {
        -((-a) % m)
    }
}

/// Saturating sum of two scalars.
pub open spec fn spec_add(a: i64, b: i64) -> i64 {
    spec_clamp(a + b) as i64
}

/// Saturating difference of two scalars.
pub open spec fn spec_sub(a: i64, b: i64) -> i64 {
    spec_clamp(a - b) as i64
}

/// Saturating negation of a scalar.
pub open spec fn spec_neg(a: i64) -> i64 {
    spec_clamp(-a) as i64
}

/// Fixed-point product: the mathematical product, rescaled and saturated.
pub open spec fn spec_mul(a: i64, b: i64) -> i64 {
    spec_clamp(spec_div_trunc(a * b, UNIT as int)) as i64
}

/// Fixed-point quotient, total: division by zero yields zero.
pub open spec fn spec_q_div(a: i64, b: i64) -> i64 {
    spec_clamp(spec_div_trunc(a * UNIT, b as int)) as i64
}

/// The magnitude of a scalar, which always fits in a `u64`.
fn magnitude(a: i64) -> (m: u64)
    ensures
        m as int == abs_int(a as int),
{
    if a >= 0 {
        a as u64
    } else {
        let w: i128 = -(a as i128);
        w as u64
    }
}

/// A nonnegative quantity clamped into `i64` and given a sign.
fn signed_clamp(mag: u128, negative: bool) -> (r: i64)
    ensures
        r as int == spec_clamp(if negative { -(mag as int) } else { mag as int }),
{
    if negative {
        if mag >= 0x8000_0000_0000_0000u128 {
            i64::MIN
        } else {
            -(mag as i64)
        }
    } else {
        if mag > i64::MAX as u128 {
            i64::MAX
        } else {
            mag as i64
        }
    }
}

/// Saturating sum.
pub fn add_f(a: Fixed, b: Fixed) -> (r: Fixed)
    ensures
        r == spec_add(a, b),
{
    let s: i128 = a as i128 + b as i128;
    if s > i64::MAX as i128 {
        i64::MAX
    } else if s < i64::MIN as i128 {
        i64::MIN
    } else {
        s as i64
    }
}

/// Saturating difference.
pub fn sub_f(a: Fixed, b: Fixed) -> (r: Fixed)
    ensures
        r == spec_sub(a, b),
{
    let s: i128 = a as i128 - b as i128;
    if s > i64::MAX as i128 {
        i64::MAX
    } else if s < i64::MIN as i128 {
        i64::MIN
    } else {
        s as i64
    }
}

/// Saturating absolute value.
pub open spec fn spec_abs(a: i64) -> i64 {
    spec_clamp(abs_int(a as int)) as i64
}

/// Saturating absolute value.
pub fn abs_f(a: Fixed) -> (r: Fixed)
    ensures
        r == spec_abs(a),
{
    if a < 0 {
        neg_f(a)
    } else {
        a
    }
}

/// Saturating negation.
pub fn neg_f(a: Fixed) -> (r: Fixed)
    ensures
        r == spec_neg(a),
{
    if a == i64::MIN {
        i64::MAX
    } else {
        -a
    }
}

/// Fixed-point product.
pub fn mul_f(a: Fixed, b: Fixed) -> (r: Fixed)
    ensures
        r == spec_mul(a, b),
{
    let ma: u64 = magnitude(a);
    let mb: u64 = magnitude(b);
    proof {
        assert((ma as int) * (mb as int) <= 0x8000_0000_0000_0000
            * 0x8000_0000_0000_0000 && 0 <= (ma as int) * (mb as int)) by (nonlinear_arith)
            requires
                0 <= ma as int <= 0x8000_0000_0000_0000,
                0 <= mb as int <= 0x8000_0000_0000_0000,
        ;
        assert(a as int * b as int == if (a < 0) == (b < 0) {
            (ma as int) * (mb as int)
        } else {
            -((ma as int) * (mb as int))
        }) by (nonlinear_arith)
            requires
                ma as int == abs_int(a as int),
                mb as int == abs_int(b as int),
        ;
    }
    let prod: u128 = (ma as u128) * (mb as u128);
    let q: u128 = prod / (UNIT as u128);
    let negative: bool = (a < 0) != (b < 0);
    let r = signed_clamp(q, negative);
    proof {
        if a as int * b as int == 0 {
            assert(prod == 0);
        }
    }
    r
}

/// Fixed-point quotient, total: division by zero yields zero.
pub fn div_f(a: Fixed, b: Fixed) -> (r: Fixed)
    ensures
        r == spec_q_div(a, b),
{
    if b == 0 {
        return 0;
    }
    let ma: u64 = magnitude(a);
    let mb: u64 = magnitude(b);
    proof {
        assert((ma as int) * (UNIT as int) <= 0x8000_0000_0000_0000 * 1_000_000 && 0 <= (
        ma as int) * (UNIT as int)) by (nonlinear_arith)
            requires
                0 <= ma as int <= 0x8000_0000_0000_0000,
        ;
        assert(a as int * (UNIT as int) == if a < 0 {
            -((ma as int) * (UNIT as int))
        } else {
            (ma as int) * (UNIT as int)
        }) by (nonlinear_arith)
            requires
                ma as int == abs_int(a as int),
        ;
        assert((ma as int * UNIT as int) / (mb as int) >= 0) by (nonlinear_arith)
            requires
                0 <= ma as int * UNIT as int,
                0 < mb as int,
        ;
    }
    let prod: u128 = (ma as u128) * (UNIT as u128);
    let q: u128 = prod / (mb as u128);
    let negative: bool = (a < 0) != (b < 0);
    let r = signed_clamp(q, negative);
    proof {
        if a as int * UNIT as int == 0 {
            assert(prod == 0);
        }
    }
    r
}

/// The whole part of a scalar: its value truncated toward zero.
pub fn whole_units(v: Fixed) -> (r: i64)
    ensures
        r as int == spec_div_trunc(v as int, UNIT as int),
{
    let m: u64 = magnitude(v);
    let q: u64 = m / (UNIT as u64);
    proof {
        assert(q < 0x8000_0000_0000_0000u64) by (nonlinear_arith)
            requires
                q == m as int / 1_000_000,
                0 <= m as int <= 0x8000_0000_0000_0000,
        ;
    }
    if v < 0 {
        -(q as i64)
    } else {
        q as i64
    }
}

/// Truncated remainder by a positive modulus.
pub fn rem_f(a: Fixed, m: Fixed) -> (r: Fixed)
    requires
        m > 0,
    ensures
        r == spec_rem_trunc(a as int, m as int),
{
    let ma: u64 = magnitude(a);
    let rm: u64 = ma % (m as u64);
    if a >= 0 {
        rm as i64
    } else {
        -(rm as i64)
    }
}

} // verus!
