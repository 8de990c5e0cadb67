//! Vectors and column-major 4x4 matrices over fixed-point scalars.
//!
//! The entry `e(i)` holds column `i / 4`, row `i % 4`, the layout a GL
//! backend expects. Every operation is an exact function of its operands,
//! stated by the `spec_` twin of each constructor, so matrix caches and
//! draw plans can be pinned down entry by entry.
use vstd::prelude::*;

use crate::fixed::{
    div_f, mul_f, neg_f, spec_mul, spec_neg, spec_q_div, sub_f, spec_sub, add_f, spec_add, Fixed,
    UNIT,
};
use crate::trig::{cos_f, sin_f, spec_cos, spec_sin};

verus! {

/// A triple of fixed-point scalars: a position, an angle triple in degrees,
/// or a scale.
#[derive(Clone, Copy, Debug, PartialEq, Eq, Structural)]
pub struct Vec3 {
    pub x: Fixed,
    pub y: Fixed,
    pub z: Fixed,
}

impl Vec3 {
    pub open spec fn spec_new(x: Fixed, y: Fixed, z: Fixed) -> Vec3 {
        Vec3 { x, y, z }
    }

    pub fn new(x: Fixed, y: Fixed, z: Fixed) -> (v: Vec3)
        ensures
            v == Vec3::spec_new(x, y, z),
    {
        Vec3 { x, y, z }
    }

    /// The origin, also the zero rotation.
    pub fn zero() -> (v: Vec3)
        ensures
            v == Vec3::spec_new(0, 0, 0),
    {
        Vec3 { x: 0, y: 0, z: 0 }
    }

    /// The unit scale.
    pub fn one() -> (v: Vec3)
        ensures
            v == Vec3::spec_new(UNIT, UNIT, UNIT),
    {
        Vec3 { x: UNIT, y: UNIT, z: UNIT }
    }
}

/// A 4x4 matrix in column-major order.
#[derive(Clone, Copy, Debug, PartialEq, Eq, Structural)]
pub struct Mat4 {
    pub e0: Fixed,
    pub e1: Fixed,
    pub e2: Fixed,
    pub e3: Fixed,
    pub e4: Fixed,
    pub e5: Fixed,
    pub e6: Fixed,
    pub e7: Fixed,
    pub e8: Fixed,
    pub e9: Fixed,
    pub e10: Fixed,
    pub e11: Fixed,
    pub e12: Fixed,
    pub e13: Fixed,
    pub e14: Fixed,
    pub e15: Fixed,
}

pub open spec fn spec_zero_mat() -> Mat4 {
    Mat4 {
        e0: 0,
        e1: 0,
        e2: 0,
        e3: 0,
        e4: 0,
        e5: 0,
        e6: 0,
        e7: 0,
        e8: 0,
        e9: 0,
        e10: 0,
        e11: 0,
        e12: 0,
        e13: 0,
        e14: 0,
        e15: 0,
    }
}

/// The all-zero matrix, the initial content of a stale cache.
pub fn zero_mat() -> (m: Mat4)
    ensures
        m == spec_zero_mat(),
{
    Mat4 {
        e0: 0,
        e1: 0,
        e2: 0,
        e3: 0,
        e4: 0,
        e5: 0,
        e6: 0,
        e7: 0,
        e8: 0,
        e9: 0,
        e10: 0,
        e11: 0,
        e12: 0,
        e13: 0,
        e14: 0,
        e15: 0,
    }
}

pub open spec fn spec_identity() -> Mat4 {
    Mat4 {
        e0: UNIT,
        e1: 0,
        e2: 0,
        e3: 0,
        e4: 0,
        e5: UNIT,
        e6: 0,
        e7: 0,
        e8: 0,
        e9: 0,
        e10: UNIT,
        e11: 0,
        e12: 0,
        e13: 0,
        e14: 0,
        e15: UNIT,
    }
}

/// The identity matrix.
pub fn identity() -> (m: Mat4)
    ensures
        m == spec_identity(),
{
    Mat4 {
        e0: UNIT,
        e1: 0,
        e2: 0,
        e3: 0,
        e4: 0,
        e5: UNIT,
        e6: 0,
        e7: 0,
        e8: 0,
        e9: 0,
        e10: UNIT,
        e11: 0,
        e12: 0,
        e13: 0,
        e14: 0,
        e15: UNIT,
    }
}

impl Mat4 {
    /// The sixteen entries in column-major order, for a backend or a test.
    pub fn column_major(&self) -> (r: Vec<Fixed>)
        ensures
            r@ =~= seq![
                self.e0, self.e1, self.e2, self.e3, self.e4, self.e5, self.e6, self.e7, self.e8,
                self.e9, self.e10, self.e11, self.e12, self.e13, self.e14, self.e15,
            ],
    {
        let mut r: Vec<Fixed> = Vec::new();
        r.push(self.e0);
        r.push(self.e1);
        r.push(self.e2);
        r.push(self.e3);
        r.push(self.e4);
        r.push(self.e5);
        r.push(self.e6);
        r.push(self.e7);
        r.push(self.e8);
        r.push(self.e9);
        r.push(self.e10);
        r.push(self.e11);
        r.push(self.e12);
        r.push(self.e13);
        r.push(self.e14);
        r.push(self.e15);
        r
    }
}

/// `p*x + q*y + r*z + w`, the translation row pattern.
pub open spec fn spec_dot_w(p: Fixed, q: Fixed, r: Fixed, w: Fixed, v: Vec3) -> Fixed {
    spec_add(spec_add(spec_add(spec_mul(p, v.x), spec_mul(q, v.y)), spec_mul(r, v.z)), w)
}

fn dot_w(p: Fixed, q: Fixed, r: Fixed, w: Fixed, v: &Vec3) -> (out: Fixed)
    ensures
        out == spec_dot_w(p, q, r, w, *v),
{
    add_f(add_f(add_f(mul_f(p, v.x), mul_f(q, v.y)), mul_f(r, v.z)), w)
}

/// `p*c + q*s`, the rotation row pattern.
pub open spec fn spec_rot_p(p: Fixed, q: Fixed, c: Fixed, s: Fixed) -> Fixed {
    spec_add(spec_mul(p, c), spec_mul(q, s))
}

fn rot_p(p: Fixed, q: Fixed, c: Fixed, s: Fixed) -> (out: Fixed)
    ensures
        out == spec_rot_p(p, q, c, s),
{
    add_f(mul_f(p, c), mul_f(q, s))
}

/// `p*c - q*s`, the other rotation row pattern.
pub open spec fn spec_rot_m(p: Fixed, q: Fixed, c: Fixed, s: Fixed) -> Fixed {
    spec_sub(spec_mul(p, c), spec_mul(q, s))
}

fn rot_m(p: Fixed, q: Fixed, c: Fixed, s: Fixed) -> (out: Fixed)
    ensures
        out == spec_rot_m(p, q, c, s),
{
    sub_f(mul_f(p, c), mul_f(q, s))
}

pub open spec fn spec_translate(a: Mat4, v: Vec3) -> Mat4 {
    Mat4 {
        e12: spec_dot_w(a.e0, a.e4, a.e8, a.e12, v),
        e13: spec_dot_w(a.e1, a.e5, a.e9, a.e13, v),
        e14: spec_dot_w(a.e2, a.e6, a.e10, a.e14, v),
        e15: spec_dot_w(a.e3, a.e7, a.e11, a.e15, v),
        ..a
    }
}

/// Post-multiplies by a translation: moves by `v` in the space of `a`.
pub fn translate(a: &Mat4, v: &Vec3) -> (m: Mat4)
    ensures
        m == spec_translate(*a, *v),
{
    Mat4 {
        e12: dot_w(a.e0, a.e4, a.e8, a.e12, v),
        e13: dot_w(a.e1, a.e5, a.e9, a.e13, v),
        e14: dot_w(a.e2, a.e6, a.e10, a.e14, v),
        e15: dot_w(a.e3, a.e7, a.e11, a.e15, v),
        ..*a
    }
}

pub open spec fn spec_rotate_x(a: Mat4, angle: Fixed) -> Mat4 {
    let s = spec_sin(angle) as i64;
    let c = spec_cos(angle) as i64;
    Mat4 {
        e4: spec_rot_p(a.e4, a.e8, c, s),
        e5: spec_rot_p(a.e5, a.e9, c, s),
        e6: spec_rot_p(a.e6, a.e10, c, s),
        e7: spec_rot_p(a.e7, a.e11, c, s),
        e8: spec_rot_m(a.e8, a.e4, c, s),
        e9: spec_rot_m(a.e9, a.e5, c, s),
        e10: spec_rot_m(a.e10, a.e6, c, s),
        e11: spec_rot_m(a.e11, a.e7, c, s),
        ..a
    }
}

/// Post-multiplies by a rotation around the x axis, in degrees.
pub fn rotate_x(a: &Mat4, angle: Fixed) -> (m: Mat4)
    ensures
        m == spec_rotate_x(*a, angle),
{
    let s = sin_f(angle);
    let c = cos_f(angle);
    Mat4 {
        e4: rot_p(a.e4, a.e8, c, s),
        e5: rot_p(a.e5, a.e9, c, s),
        e6: rot_p(a.e6, a.e10, c, s),
        e7: rot_p(a.e7, a.e11, c, s),
        e8: rot_m(a.e8, a.e4, c, s),
        e9: rot_m(a.e9, a.e5, c, s),
        e10: rot_m(a.e10, a.e6, c, s),
        e11: rot_m(a.e11, a.e7, c, s),
        ..*a
    }
}

pub open spec fn spec_rotate_y(a: Mat4, angle: Fixed) -> Mat4 {
    let s = spec_sin(angle) as i64;
    let c = spec_cos(angle) as i64;
    Mat4 {
        e0: spec_rot_m(a.e0, a.e8, c, s),
        e1: spec_rot_m(a.e1, a.e9, c, s),
        e2: spec_rot_m(a.e2, a.e10, c, s),
        e3: spec_rot_m(a.e3, a.e11, c, s),
        e8: spec_rot_p(a.e8, a.e0, c, s),
        e9: spec_rot_p(a.e9, a.e1, c, s),
        e10: spec_rot_p(a.e10, a.e2, c, s),
        e11: spec_rot_p(a.e11, a.e3, c, s),
        ..a
    }
}

/// Post-multiplies by a rotation around the y axis, in degrees.
pub fn rotate_y(a: &Mat4, angle: Fixed) -> (m: Mat4)
    ensures
        m == spec_rotate_y(*a, angle),
{
    let s = sin_f(angle);
    let c = cos_f(angle);
    Mat4 {
        e0: rot_m(a.e0, a.e8, c, s),
        e1: rot_m(a.e1, a.e9, c, s),
        e2: rot_m(a.e2, a.e10, c, s),
        e3: rot_m(a.e3, a.e11, c, s),
        e8: rot_p(a.e8, a.e0, c, s),
        e9: rot_p(a.e9, a.e1, c, s),
        e10: rot_p(a.e10, a.e2, c, s),
        e11: rot_p(a.e11, a.e3, c, s),
        ..*a
    }
}

pub open spec fn spec_rotate_z(a: Mat4, angle: Fixed) -> Mat4 {
    let s = spec_sin(angle) as i64;
    let c = spec_cos(angle) as i64;
    Mat4 {
        e0: spec_rot_p(a.e0, a.e4, c, s),
        e1: spec_rot_p(a.e1, a.e5, c, s),
        e2: spec_rot_p(a.e2, a.e6, c, s),
        e3: spec_rot_p(a.e3, a.e7, c, s),
        e4: spec_rot_m(a.e4, a.e0, c, s),
        e5: spec_rot_m(a.e5, a.e1, c, s),
        e6: spec_rot_m(a.e6, a.e2, c, s),
        e7: spec_rot_m(a.e7, a.e3, c, s),
        ..a
    }
}

/// Post-multiplies by a rotation around the z axis, in degrees.
pub fn rotate_z(a: &Mat4, angle: Fixed) -> (m: Mat4)
    ensures
        m == spec_rotate_z(*a, angle),
{
    let s = sin_f(angle);
    let c = cos_f(angle);
    Mat4 {
        e0: rot_p(a.e0, a.e4, c, s),
        e1: rot_p(a.e1, a.e5, c, s),
        e2: rot_p(a.e2, a.e6, c, s),
        e3: rot_p(a.e3, a.e7, c, s),
        e4: rot_m(a.e4, a.e0, c, s),
        e5: rot_m(a.e5, a.e1, c, s),
        e6: rot_m(a.e6, a.e2, c, s),
        e7: rot_m(a.e7, a.e3, c, s),
        ..*a
    }
}

/// Rotation around all three axes: z first, then x, then y.
pub open spec fn spec_rotate(a: Mat4, angles: Vec3) -> Mat4 {
    spec_rotate_y(spec_rotate_x(spec_rotate_z(a, angles.z), angles.x), angles.y)
}

/// Post-multiplies by a rotation around all three axes, in degrees:
/// z first, then x, then y.
pub fn rotate(a: &Mat4, angles: &Vec3) -> (m: Mat4)
    ensures
        m == spec_rotate(*a, *angles),
{
    let tmp_a = rotate_z(a, angles.z);
    let tmp_b = rotate_x(&tmp_a, angles.x);
    rotate_y(&tmp_b, angles.y)
}

pub open spec fn spec_scale(a: Mat4, v: Vec3) -> Mat4 {
    Mat4 {
        e0: spec_mul(a.e0, v.x),
        e1: spec_mul(a.e1, v.x),
        e2: spec_mul(a.e2, v.x),
        e3: spec_mul(a.e3, v.x),
        e4: spec_mul(a.e4, v.y),
        e5: spec_mul(a.e5, v.y),
        e6: spec_mul(a.e6, v.y),
        e7: spec_mul(a.e7, v.y),
        e8: spec_mul(a.e8, v.z),
        e9: spec_mul(a.e9, v.z),
        e10: spec_mul(a.e10, v.z),
        e11: spec_mul(a.e11, v.z),
        ..a
    }
}

/// Post-multiplies by a scale.
pub fn scale(a: &Mat4, v: &Vec3) -> (m: Mat4)
    ensures
        m == spec_scale(*a, *v),
{
    Mat4 {
        e0: mul_f(a.e0, v.x),
        e1: mul_f(a.e1, v.x),
        e2: mul_f(a.e2, v.x),
        e3: mul_f(a.e3, v.x),
        e4: mul_f(a.e4, v.y),
        e5: mul_f(a.e5, v.y),
        e6: mul_f(a.e6, v.y),
        e7: mul_f(a.e7, v.y),
        e8: mul_f(a.e8, v.z),
        e9: mul_f(a.e9, v.z),
        e10: mul_f(a.e10, v.z),
        e11: mul_f(a.e11, v.z),
        ..*a
    }
}

pub open spec fn spec_transpose(a: Mat4) -> Mat4 {
    Mat4 {
        e0: a.e0,
        e1: a.e4,
        e2: a.e8,
        e3: a.e12,
        e4: a.e1,
        e5: a.e5,
        e6: a.e9,
        e7: a.e13,
        e8: a.e2,
        e9: a.e6,
        e10: a.e10,
        e11: a.e14,
        e12: a.e3,
        e13: a.e7,
        e14: a.e11,
        e15: a.e15,
    }
}

/// The transpose.
pub fn transpose(a: &Mat4) -> (m: Mat4)
    ensures
        m == spec_transpose(*a),
{
    Mat4 {
        e0: a.e0,
        e1: a.e4,
        e2: a.e8,
        e3: a.e12,
        e4: a.e1,
        e5: a.e5,
        e6: a.e9,
        e7: a.e13,
        e8: a.e2,
        e9: a.e6,
        e10: a.e10,
        e11: a.e14,
        e12: a.e3,
        e13: a.e7,
        e14: a.e11,
        e15: a.e15,
    }
}

/// `p*q - r*s`, the cofactor building block.
pub open spec fn spec_diff2(p: Fixed, q: Fixed, r: Fixed, s: Fixed) -> Fixed {
    spec_sub(spec_mul(p, q), spec_mul(r, s))
}

fn diff2(p: Fixed, q: Fixed, r: Fixed, s: Fixed) -> (out: Fixed)
    ensures
        out == spec_diff2(p, q, r, s),
{
    sub_f(mul_f(p, q), mul_f(r, s))
}

/// `(p1*q1 - p2*q2 + p3*q3) * w`, one inverse entry.
pub open spec fn spec_cof_p(
    p1: Fixed,
    q1: Fixed,
    p2: Fixed,
    q2: Fixed,
    p3: Fixed,
    q3: Fixed,
    w: Fixed,
) -> Fixed {
    spec_mul(
        spec_add(spec_sub(spec_mul(p1, q1), spec_mul(p2, q2)), spec_mul(p3, q3)),
        w,
    )
}

fn cof_p(p1: Fixed, q1: Fixed, p2: Fixed, q2: Fixed, p3: Fixed, q3: Fixed, w: Fixed) -> (out:
    Fixed)
    ensures
        out == spec_cof_p(p1, q1, p2, q2, p3, q3, w),
{
    mul_f(add_f(sub_f(mul_f(p1, q1), mul_f(p2, q2)), mul_f(p3, q3)), w)
}

/// `(p1*q1 - p2*q2 - p3*q3) * w`, the other inverse entry shape.
pub open spec fn spec_cof_m(
    p1: Fixed,
    q1: Fixed,
    p2: Fixed,
    q2: Fixed,
    p3: Fixed,
    q3: Fixed,
    w: Fixed,
) -> Fixed {
    spec_mul(
        spec_sub(spec_sub(spec_mul(p1, q1), spec_mul(p2, q2)), spec_mul(p3, q3)),
        w,
    )
}

fn cof_m(p1: Fixed, q1: Fixed, p2: Fixed, q2: Fixed, p3: Fixed, q3: Fixed, w: Fixed) -> (out:
    Fixed)
    ensures
        out == spec_cof_m(p1, q1, p2, q2, p3, q3, w),
{
    mul_f(sub_f(sub_f(mul_f(p1, q1), mul_f(p2, q2)), mul_f(p3, q3)), w)
}

/// The determinant, over the twelve 2x2 cofactors of `a`.
pub open spec fn spec_det(a: Mat4) -> Fixed {
    let b00 = spec_diff2(a.e0, a.e5, a.e1, a.e4);
    let b01 = spec_diff2(a.e0, a.e6, a.e2, a.e4);
    let b02 = spec_diff2(a.e0, a.e7, a.e3, a.e4);
    let b03 = spec_diff2(a.e1, a.e6, a.e2, a.e5);
    let b04 = spec_diff2(a.e1, a.e7, a.e3, a.e5);
    let b05 = spec_diff2(a.e2, a.e7, a.e3, a.e6);
    let b06 = spec_diff2(a.e8, a.e13, a.e9, a.e12);
    let b07 = spec_diff2(a.e8, a.e14, a.e10, a.e12);
    let b08 = spec_diff2(a.e8, a.e15, a.e11, a.e12);
    let b09 = spec_diff2(a.e9, a.e14, a.e10, a.e13);
    let b10 = spec_diff2(a.e9, a.e15, a.e11, a.e13);
    let b11 = spec_diff2(a.e10, a.e15, a.e11, a.e14);
    spec_add(
        spec_sub(
            spec_add(
                spec_add(
                    spec_sub(spec_mul(b00, b11), spec_mul(b01, b10)),
                    spec_mul(b02, b09),
                ),
                spec_mul(b03, b08),
            ),
            spec_mul(b04, b07),
        ),
        spec_mul(b05, b06),
    )
}

pub open spec fn spec_inverse(a: Mat4) -> Mat4 {
    let b00 = spec_diff2(a.e0, a.e5, a.e1, a.e4);
    let b01 = spec_diff2(a.e0, a.e6, a.e2, a.e4);
    let b02 = spec_diff2(a.e0, a.e7, a.e3, a.e4);
    let b03 = spec_diff2(a.e1, a.e6, a.e2, a.e5);
    let b04 = spec_diff2(a.e1, a.e7, a.e3, a.e5);
    let b05 = spec_diff2(a.e2, a.e7, a.e3, a.e6);
    let b06 = spec_diff2(a.e8, a.e13, a.e9, a.e12);
    let b07 = spec_diff2(a.e8, a.e14, a.e10, a.e12);
    let b08 = spec_diff2(a.e8, a.e15, a.e11, a.e12);
    let b09 = spec_diff2(a.e9, a.e14, a.e10, a.e13);
    let b10 = spec_diff2(a.e9, a.e15, a.e11, a.e13);
    let b11 = spec_diff2(a.e10, a.e15, a.e11, a.e14);
    let det = spec_det(a);
    if det == 0 {
        spec_identity()
    } else {
        let w = spec_q_div(UNIT, det);
        Mat4 {
            e0: spec_cof_p(a.e5, b11, a.e6, b10, a.e7, b09, w),
            e1: spec_cof_m(a.e2, b10, a.e1, b11, a.e3, b09, w),
            e2: spec_cof_p(a.e13, b05, a.e14, b04, a.e15, b03, w),
            e3: spec_cof_m(a.e10, b04, a.e9, b05, a.e11, b03, w),
            e4: spec_cof_m(a.e6, b08, a.e4, b11, a.e7, b07, w),
            e5: spec_cof_p(a.e0, b11, a.e2, b08, a.e3, b07, w),
            e6: spec_cof_m(a.e14, b02, a.e12, b05, a.e15, b01, w),
            e7: spec_cof_p(a.e8, b05, a.e10, b02, a.e11, b01, w),
            e8: spec_cof_p(a.e4, b10, a.e5, b08, a.e7, b06, w),
            e9: spec_cof_m(a.e1, b08, a.e0, b10, a.e3, b06, w),
            e10: spec_cof_p(a.e12, b04, a.e13, b02, a.e15, b00, w),
            e11: spec_cof_m(a.e9, b02, a.e8, b04, a.e11, b00, w),
            e12: spec_cof_m(a.e5, b07, a.e4, b09, a.e6, b06, w),
            e13: spec_cof_p(a.e0, b09, a.e1, b07, a.e2, b06, w),
            e14: spec_cof_m(a.e13, b01, a.e12, b03, a.e14, b00, w),
            e15: spec_cof_p(a.e8, b03, a.e9, b01, a.e10, b00, w),
        }
    }
}

/// The inverse by cofactor expansion; a singular matrix yields the identity.
pub fn inverse(a: &Mat4) -> (m: Mat4)
    ensures
        m == spec_inverse(*a),
{
    let b00 = diff2(a.e0, a.e5, a.e1, a.e4);
    let b01 = diff2(a.e0, a.e6, a.e2, a.e4);
    let b02 = diff2(a.e0, a.e7, a.e3, a.e4);
    let b03 = diff2(a.e1, a.e6, a.e2, a.e5);
    let b04 = diff2(a.e1, a.e7, a.e3, a.e5);
    let b05 = diff2(a.e2, a.e7, a.e3, a.e6);
    let b06 = diff2(a.e8, a.e13, a.e9, a.e12);
    let b07 = diff2(a.e8, a.e14, a.e10, a.e12);
    let b08 = diff2(a.e8, a.e15, a.e11, a.e12);
    let b09 = diff2(a.e9, a.e14, a.e10, a.e13);
    let b10 = diff2(a.e9, a.e15, a.e11, a.e13);
    let b11 = diff2(a.e10, a.e15, a.e11, a.e14);
    let det = add_f(
        sub_f(
            add_f(
                add_f(sub_f(mul_f(b00, b11), mul_f(b01, b10)), mul_f(b02, b09)),
                mul_f(b03, b08),
            ),
            mul_f(b04, b07),
        ),
        mul_f(b05, b06),
    );
    if det == 0 {
        identity()
    } else {
        let w = div_f(UNIT, det);
        Mat4 {
            e0: cof_p(a.e5, b11, a.e6, b10, a.e7, b09, w),
            e1: cof_m(a.e2, b10, a.e1, b11, a.e3, b09, w),
            e2: cof_p(a.e13, b05, a.e14, b04, a.e15, b03, w),
            e3: cof_m(a.e10, b04, a.e9, b05, a.e11, b03, w),
            e4: cof_m(a.e6, b08, a.e4, b11, a.e7, b07, w),
            e5: cof_p(a.e0, b11, a.e2, b08, a.e3, b07, w),
            e6: cof_m(a.e14, b02, a.e12, b05, a.e15, b01, w),
            e7: cof_p(a.e8, b05, a.e10, b02, a.e11, b01, w),
            e8: cof_p(a.e4, b10, a.e5, b08, a.e7, b06, w),
            e9: cof_m(a.e1, b08, a.e0, b10, a.e3, b06, w),
            e10: cof_p(a.e12, b04, a.e13, b02, a.e15, b00, w),
            e11: cof_m(a.e9, b02, a.e8, b04, a.e11, b00, w),
            e12: cof_m(a.e5, b07, a.e4, b09, a.e6, b06, w),
            e13: cof_p(a.e0, b09, a.e1, b07, a.e2, b06, w),
            e14: cof_m(a.e13, b01, a.e12, b03, a.e14, b00, w),
            e15: cof_p(a.e8, b03, a.e9, b01, a.e10, b00, w),
        }
    }
}

/// The representation of `2.0`.
pub const TWO: i64 = 2_000_000;

pub open spec fn spec_frustum(
    top: Fixed,
    right: Fixed,
    bottom: Fixed,
    left: Fixed,
    near: Fixed,
    far: Fixed,
) -> Mat4 {
    Mat4 {
        e0: spec_q_div(spec_mul(TWO, near), spec_sub(right, left)),
        e1: 0,
        e2: 0,
        e3: 0,
        e4: 0,
        e5: spec_q_div(spec_mul(TWO, near), spec_sub(top, bottom)),
        e6: 0,
        e7: 0,
        e8: spec_q_div(spec_add(right, left), spec_sub(right, left)),
        e9: spec_q_div(spec_add(top, bottom), spec_sub(top, bottom)),
        e10: spec_neg(spec_q_div(spec_add(far, near), spec_sub(far, near))),
        e11: spec_neg(UNIT),
        e12: 0,
        e13: 0,
        e14: spec_q_div(spec_mul(spec_mul(spec_neg(TWO), far), near), spec_sub(far, near)),
        e15: 0,
    }
}

/// The perspective frustum for the given clip planes.
pub fn frustum(top: Fixed, right: Fixed, bottom: Fixed, left: Fixed, near: Fixed, far: Fixed) -> (m:
    Mat4)
    ensures
        m == spec_frustum(top, right, bottom, left, near, far),
{
    Mat4 {
        e0: div_f(mul_f(TWO, near), sub_f(right, left)),
        e1: 0,
        e2: 0,
        e3: 0,
        e4: 0,
        e5: div_f(mul_f(TWO, near), sub_f(top, bottom)),
        e6: 0,
        e7: 0,
        e8: div_f(add_f(right, left), sub_f(right, left)),
        e9: div_f(add_f(top, bottom), sub_f(top, bottom)),
        e10: neg_f(div_f(add_f(far, near), sub_f(far, near))),
        e11: -UNIT,
        e12: 0,
        e13: 0,
        e14: div_f(mul_f(mul_f(neg_f(TWO), far), near), sub_f(far, near)),
        e15: 0,
    }
}

pub open spec fn spec_perspective(fov: Fixed, aspect: Fixed, near: Fixed, far: Fixed) -> Mat4 {
    let half = spec_q_div(fov, TWO);
    let tan_half = spec_q_div(spec_sin(half) as i64, spec_cos(half) as i64);
    let ymax = spec_mul(near, tan_half);
    let ymin = spec_neg(ymax);
    let xmin = spec_mul(ymin, aspect);
    let xmax = spec_mul(ymax, aspect);
    spec_frustum(ymax, xmax, ymin, xmin, near, far)
}

/// The perspective projection for a field of view in degrees, an aspect
/// ratio, and the near and far clip planes.
pub fn perspective(fov: Fixed, aspect: Fixed, near: Fixed, far: Fixed) -> (m: Mat4)
    ensures
        m == spec_perspective(fov, aspect, near, far),
{
    let half = div_f(fov, TWO);
    let tan_half = div_f(sin_f(half), cos_f(half));
    let ymax = mul_f(near, tan_half);
    let ymin = neg_f(ymax);
    let xmin = mul_f(ymin, aspect);
    let xmax = mul_f(ymax, aspect);
    frustum(ymax, xmax, ymin, xmin, near, far)
}

} // verus!
