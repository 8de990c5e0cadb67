//! The transform component: position, rotation and scale with a lazily
//! cached local matrix.
//!
//! The cached matrix is valid exactly when `matrix_update` is false; every
//! mutator raises the flag, and `get_matrix` or the per-frame `update` tick
//! clears it by recomputing `translate * rotate * scale`. Rotation angles
//! are degrees, folded into `[0, 360)` on every `set_rotation`.
use vstd::prelude::*;

use crate::fixed::{
    abs_f, add_f, div_f, mul_f, neg_f, rem_f, spec_abs, spec_add, spec_mul, spec_neg, spec_q_div,
    spec_rem_trunc, spec_sub, sub_f, Fixed, DEG_360,
};
use crate::mat::{
    identity, rotate, scale, spec_identity, spec_rotate, spec_scale, spec_translate, spec_zero_mat,
    translate, zero_mat, Mat4, Vec3,
};

verus! {

/// The representation of `30.0`, the rotation-delta time divisor.
pub const THIRTY: i64 = 30_000_000;

/// One rotation component folded as `set_rotation` stores it: non-negative
/// angles are taken modulo a full turn; negative ones are subtracted from a
/// full turn first, so a small negative angle lands just below `360`.
pub open spec fn spec_normalize_component(v: Fixed) -> Fixed {
    if v < 0 {
        spec_rem_trunc(spec_sub(DEG_360, spec_abs(v)) as int, DEG_360 as int) as i64
    } else {
        spec_rem_trunc(v as int, DEG_360 as int) as i64
    }
}

pub open spec fn spec_normalize_rotation(v: Vec3) -> Vec3 {
    Vec3 {
        x: spec_normalize_component(v.x),
        y: spec_normalize_component(v.y),
        z: spec_normalize_component(v.z),
    }
}

fn normalize_component(v: Fixed) -> (r: Fixed)
    ensures
        r == spec_normalize_component(v),
{
    if v < 0 {
        rem_f(sub_f(DEG_360, abs_f(v)), DEG_360)
    } else {
        rem_f(v, DEG_360)
    }
}

/// Folds every rotation component as `set_rotation` stores it.
pub fn normalize_rotation(v: &Vec3) -> (r: Vec3)
    ensures
        r == spec_normalize_rotation(*v),
{
    Vec3 {
        x: normalize_component(v.x),
        y: normalize_component(v.y),
        z: normalize_component(v.z),
    }
}

/// The local matrix of an entity: translation, then rotation, then scale.
pub open spec fn spec_local_matrix(position: Vec3, rotation: Vec3, scaling: Vec3) -> Mat4 {
    spec_scale(spec_rotate(spec_translate(spec_identity(), position), rotation), scaling)
}

/// Position, rotation and scale, plus the cached local matrix and its
/// staleness flag.
#[derive(Clone, Copy, Debug, PartialEq, Eq, Structural)]
pub struct Transform {
    pub position: Vec3,
    pub rotation: Vec3,
    pub scale: Vec3,
    pub matrix: Mat4,
    pub matrix_update: bool,
}

impl Transform {
    /// The state after the cache has been brought up to date.
    pub open spec fn spec_refreshed(self) -> Transform {
        if self.matrix_update {
            Transform {
                matrix: spec_local_matrix(self.position, self.rotation, self.scale),
                matrix_update: false,
                ..self
            }
        } else {
            self
        }
    }

    pub open spec fn spec_with_position(self, position: Vec3) -> Transform {
        Transform { position, matrix_update: true, ..self }
    }

    pub open spec fn spec_with_rotation(self, rotation: Vec3) -> Transform {
        Transform { rotation: spec_normalize_rotation(rotation), matrix_update: true, ..self }
    }

    pub open spec fn spec_with_scale(self, scaling: Vec3) -> Transform {
        Transform { scale: scaling, matrix_update: true, ..self }
    }

    /// The position shift of `delta_position`: each component moves by
    /// `delta / dt`.
    pub open spec fn spec_position_step(self, delta: Vec3, dt: Fixed) -> Vec3 {
        Vec3 {
            x: spec_add(self.position.x, spec_q_div(delta.x, dt)),
            y: spec_add(self.position.y, spec_q_div(delta.y, dt)),
            z: spec_add(self.position.z, spec_q_div(delta.z, dt)),
        }
    }

    /// The rotation shift of `delta_rotation`: each component grows by
    /// `delta * dt / 30` before normalization.
    pub open spec fn spec_rotation_step(self, delta: Vec3, dt: Fixed) -> Vec3 {
        Vec3 {
            x: spec_add(self.rotation.x, spec_q_div(spec_mul(delta.x, dt), THIRTY)),
            y: spec_add(self.rotation.y, spec_q_div(spec_mul(delta.y, dt), THIRTY)),
            z: spec_add(self.rotation.z, spec_q_div(spec_mul(delta.z, dt), THIRTY)),
        }
    }

    /// The cached matrix, recomputed first when it is stale.
    pub fn get_matrix(&mut self) -> (m: Mat4)
        ensures
            *final(self) == old(self).spec_refreshed(),
            m == old(self).spec_refreshed().matrix,
    {
        if self.matrix_update {
            self.matrix_update = false;
            self.matrix = self.calculate_matrix();
        }
        self.matrix
    }

    pub fn set_position(&mut self, position: Vec3)
        ensures
            *final(self) == old(self).spec_with_position(position),
    {
        self.matrix_update = true;
        self.position = position;
    }

    /// Moves the position by `delta / dt`. A zero `dt` is a programming
    /// error and is ruled out by the precondition.
    pub fn delta_position(&mut self, delta: Vec3, dt: Fixed)
        requires
            dt != 0,
        ensures
            *final(self) == old(self).spec_with_position(
                old(self).spec_position_step(delta, dt),
            ),
    {
        let position = Vec3 {
            x: add_f(self.position.x, div_f(delta.x, dt)),
            y: add_f(self.position.y, div_f(delta.y, dt)),
            z: add_f(self.position.z, div_f(delta.z, dt)),
        };
        self.set_position(position);
    }

    pub fn get_position(&self) -> (p: &Vec3)
        ensures
            *p == self.position,
    {
        &self.position
    }

    /// Stores the rotation folded into `[0, 360)` per component.
    pub fn set_rotation(&mut self, rotation: Vec3)
        ensures
            *final(self) == old(self).spec_with_rotation(rotation),
    {
        self.matrix_update = true;
        self.rotation = normalize_rotation(&rotation);
    }

    /// Turns by `delta * dt / 30`, then re-normalizes.
    pub fn delta_rotation(&mut self, delta: Vec3, dt: Fixed)
        ensures
            *final(self) == old(self).spec_with_rotation(
                old(self).spec_rotation_step(delta, dt),
            ),
    {
        let rotation = Vec3 {
            x: add_f(self.rotation.x, div_f(mul_f(delta.x, dt), THIRTY)),
            y: add_f(self.rotation.y, div_f(mul_f(delta.y, dt), THIRTY)),
            z: add_f(self.rotation.z, div_f(mul_f(delta.z, dt), THIRTY)),
        };
        self.set_rotation(rotation);
    }

    pub fn get_rotation(&self) -> (r: &Vec3)
        ensures
            *r == self.rotation,
    {
        &self.rotation
    }

    pub fn set_scale(&mut self, scaling: Vec3)
        ensures
            *final(self) == old(self).spec_with_scale(scaling),
    {
        self.matrix_update = true;
        self.scale = scaling;
    }

    pub fn get_scale(&self) -> (s: &Vec3)
        ensures
            *s == self.scale,
    {
        &self.scale
    }

    /// The forward direction derived from the rotation alone.
    pub open spec fn spec_forward(self) -> Vec3 {
        let m = spec_rotate(spec_identity(), self.rotation);
        Vec3 { x: spec_neg(m.e1), y: spec_neg(m.e5), z: spec_neg(m.e9) }
    }

    pub fn get_forward(&self) -> (v: Vec3)
        ensures
            v == self.spec_forward(),
    {
        let base = identity();
        let m = rotate(&base, &self.rotation);
        Vec3 { x: neg_f(m.e1), y: neg_f(m.e5), z: neg_f(m.e9) }
    }

    /// The left direction derived from the rotation alone.
    pub open spec fn spec_left(self) -> Vec3 {
        let m = spec_rotate(spec_identity(), self.rotation);
        Vec3 { x: m.e0, y: m.e4, z: m.e8 }
    }

    pub fn get_left(&self) -> (v: Vec3)
        ensures
            v == self.spec_left(),
    {
        let base = identity();
        let m = rotate(&base, &self.rotation);
        Vec3 { x: m.e0, y: m.e4, z: m.e8 }
    }

    fn calculate_matrix(&self) -> (m: Mat4)
        ensures
            m == spec_local_matrix(self.position, self.rotation, self.scale),
    {
        let base = identity();
        let translated = translate(&base, &self.position);
        let rotated = rotate(&translated, &self.rotation);
        scale(&rotated, &self.scale)
    }

    /// The per-frame component tick: brings a stale cache up to date.
    pub fn update(&mut self, dt: Fixed)
        ensures
            *final(self) == old(self).spec_refreshed(),
    {
        if self.matrix_update {
            self.matrix_update = false;
            self.matrix = self.calculate_matrix();
        }
    }
}

impl crate::component::Component for Transform {
    /// The tick brings a stale matrix cache up to date.
    open spec fn spec_updated(pre: Transform, dt: Fixed, post: Transform) -> bool {
        post == pre.spec_refreshed()
    }

    fn update(&mut self, dt: Fixed) {
        self.update(dt);
    }
}

/// The transform a builder starts from: the origin, no rotation, unit
/// scale, and a stale cache.
pub open spec fn spec_default_transform() -> Transform {
    Transform {
        position: Vec3 { x: 0, y: 0, z: 0 },
        rotation: Vec3 { x: 0, y: 0, z: 0 },
        scale: Vec3 { x: crate::fixed::UNIT, y: crate::fixed::UNIT, z: crate::fixed::UNIT },
        matrix: spec_zero_mat(),
        matrix_update: true,
    }
}

impl Default for Transform {
    /// The origin, no rotation, unit scale, and a stale cache.
    fn default() -> (t: Transform)
        ensures
            t == spec_default_transform(),
    {
        Transform {
            position: Vec3::zero(),
            rotation: Vec3::zero(),
            scale: Vec3::one(),
            matrix: zero_mat(),
            matrix_update: true,
        }
    }
}

/// Refreshing an already fresh cache changes nothing: a second `get_matrix`
/// with no mutation in between returns the identical cached matrix without
/// recomputing.
pub proof fn lemma_refresh_idempotent(t: Transform)
    ensures
        t.spec_refreshed().spec_refreshed() == t.spec_refreshed(),
        !t.spec_refreshed().matrix_update,
{
}

/// After `set_position` the next refresh recomputes the matrix from the new
/// position and the unchanged rotation and scale.
pub proof fn lemma_set_position_recomputes(t: Transform, p: Vec3)
    ensures
        t.spec_with_position(p).matrix_update,
        t.spec_with_position(p).spec_refreshed().matrix == spec_local_matrix(
            p,
            t.rotation,
            t.scale,
        ),
{
}

/// Every rotation stored by `set_rotation` lies in `[0, 360)`, provided no
/// requested component lies below a full negative turn; `-370` is folded to
/// `-10` by the fold the runtime preserves, so such inputs are excluded.
pub proof fn lemma_rotation_in_range(t: Transform, r: Vec3)
    requires
        r.x >= -DEG_360,
        r.y >= -DEG_360,
        r.z >= -DEG_360,
    ensures
        0 <= t.spec_with_rotation(r).rotation.x < DEG_360,
        0 <= t.spec_with_rotation(r).rotation.y < DEG_360,
        0 <= t.spec_with_rotation(r).rotation.z < DEG_360,
{
}

} // verus!
