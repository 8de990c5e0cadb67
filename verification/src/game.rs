//! The concrete controllers of the runtime.
//!
//! Each controller is a pure per-frame rule: given the parent entity, the
//! frame time and the input snapshot, it yields the next entity state.
//! Mouse movement arrives in pixels and is widened into fixed-point
//! scalars before it feeds rotation deltas.
use vstd::prelude::*;

use crate::camera::Camera;
use crate::controller::Controller;
use crate::cube::Cube;
use crate::fixed::{
    add_f, div_f, mul_f, neg_f, spec_add, spec_mul, spec_neg, spec_q_div, sub_f, spec_sub, Fixed,
    UNIT,
};
use crate::io::{Input, KeyboardKey, MouseButton};
use crate::mat::{TWO, Vec3};
use crate::transform::Transform;

verus! {

/// The representation of `5.0`, the mouse-look sensitivity divisor.
pub const FIVE: i64 = 5_000_000;

/// The representation of `50.0`, the drag-look sensitivity divisor.
pub const FIFTY: i64 = 50_000_000;

/// A pixel count as a fixed-point scalar.
pub open spec fn spec_px(n: i32) -> Fixed {
    (n * UNIT) as i64
}

fn px(n: i32) -> (r: Fixed)
    ensures
        r == spec_px(n),
{
    (n as i64) * UNIT
}

/// Spins its parent at a constant rate: one times `speed` in pitch and two
/// times `speed` in yaw, scaled by the frame time.
#[derive(Clone, Copy, Debug, Default)]
pub struct Rotate {
    pub speed: Fixed,
}

/// The cube after one `Rotate` run.
pub open spec fn spec_rotate_applied(r: Rotate, parent: Cube, dt: Fixed, input: Input) -> Cube {
    let t = parent.transform;
    Cube {
        transform: t.spec_with_rotation(
            t.spec_rotation_step(
                Vec3 { x: spec_mul(UNIT, r.speed), y: spec_mul(TWO, r.speed), z: 0 },
                dt,
            ),
        ),
        ..parent
    }
}

impl Controller<Cube> for Rotate {
    open spec fn spec_applied(self, parent: Cube, dt: Fixed, input: Input) -> Cube {
        spec_rotate_applied(self, parent, dt, input)
    }

    fn update(&self, parent: &mut Cube, dt: Fixed, input: &Input) {
        let delta = Vec3 { x: mul_f(UNIT, self.speed), y: mul_f(TWO, self.speed), z: 0 };
        parent.transform.delta_rotation(delta, dt);
    }
}

/// First-person movement: mouse-drag look while the primary button is held,
/// and keyboard movement along the current forward, vertical and left axes.
#[derive(Clone, Copy, Debug, Default)]
pub struct FPSController {}

impl FPSController {
    /// The transform after the look step: a drag turns the camera by the
    /// pointer movement at half the frame time.
    pub open spec fn spec_look_step(t: Transform, dt: Fixed, input: Input) -> Transform {
        if input.mouse.buttons & crate::io::spec_button_mask(MouseButton::PRIMARY) != 0 {
            t.spec_with_rotation(
                t.spec_rotation_step(
                    Vec3 { x: spec_px(input.mouse.dy), y: spec_px(input.mouse.dx), z: 0 },
                    spec_q_div(dt, TWO),
                ),
            )
        } else {
            t
        }
    }

    /// The movement direction chosen by the held keys, read off the
    /// transform after the look step.
    pub open spec fn spec_move_delta(t: Transform, input: Input) -> Vec3 {
        let k = input.keyboard;
        let fwd = t.spec_forward();
        let left = t.spec_left();
        let dx = if k.forward {
            Vec3 { x: fwd.x, y: 0, z: fwd.z }
        } else if k.backward {
            Vec3 { x: spec_neg(fwd.x), y: 0, z: spec_neg(fwd.z) }
        } else {
            Vec3 { x: 0, y: 0, z: 0 }
        };
        let dy = if k.up {
            Vec3 { x: 0, y: UNIT, z: 0 }
        } else if k.down {
            Vec3 { x: 0, y: spec_neg(UNIT), z: 0 }
        } else {
            Vec3 { x: 0, y: 0, z: 0 }
        };
        let dz = if k.left {
            Vec3 { x: left.x, y: 0, z: left.z }
        } else if k.right {
            Vec3 { x: spec_neg(left.x), y: 0, z: spec_neg(left.z) }
        } else {
            Vec3 { x: 0, y: 0, z: 0 }
        };
        Vec3 {
            x: spec_add(spec_add(dx.x, dy.x), dz.x),
            y: spec_add(spec_add(dx.y, dy.y), dz.y),
            z: spec_add(spec_add(dx.z, dy.z), dz.z),
        }
    }
}

/// The camera after one first-person controller run.
pub open spec fn spec_fps_applied(parent: Camera, dt: Fixed, input: Input) -> Camera {
    let t1 = FPSController::spec_look_step(parent.transform, dt, input);
    let dp = FPSController::spec_move_delta(t1, input);
    let t2 = t1.spec_with_position(t1.spec_position_step(dp, dt));
    Camera { transform: t2, view_dirty: true, ..parent }
}

impl Controller<Camera> for FPSController {
    open spec fn spec_applied(self, parent: Camera, dt: Fixed, input: Input) -> Camera {
        spec_fps_applied(parent, dt, input)
    }

    fn update(&self, parent: &mut Camera, dt: Fixed, input: &Input) {
        let mouse = input.get_mouse();
        if mouse.is_down(MouseButton::PRIMARY) {
            let look = Vec3 { x: px(mouse.get_dy()), y: px(mouse.get_dx()), z: 0 };
            parent.transform.delta_rotation(look, div_f(dt, TWO));
        }
        let keyboard = input.get_keyboard();
        let fwd = parent.transform.get_forward();
        let left = parent.transform.get_left();
        let dx = if keyboard.is_down(KeyboardKey::FORWARD) {
            Vec3 { x: fwd.x, y: 0, z: fwd.z }
        } else if keyboard.is_down(KeyboardKey::BACKWARD) {
            Vec3 { x: neg_f(fwd.x), y: 0, z: neg_f(fwd.z) }
        } else {
            Vec3 { x: 0, y: 0, z: 0 }
        };
        let dy = if keyboard.is_down(KeyboardKey::UP) {
            Vec3 { x: 0, y: UNIT, z: 0 }
        } else if keyboard.is_down(KeyboardKey::DOWN) {
            Vec3 { x: 0, y: neg_f(UNIT), z: 0 }
        } else {
            Vec3 { x: 0, y: 0, z: 0 }
        };
        let dz = if keyboard.is_down(KeyboardKey::LEFT) {
            Vec3 { x: left.x, y: 0, z: left.z }
        } else if keyboard.is_down(KeyboardKey::RIGHT) {
            Vec3 { x: neg_f(left.x), y: 0, z: neg_f(left.z) }
        } else {
            Vec3 { x: 0, y: 0, z: 0 }
        };
        let dp = Vec3 {
            x: add_f(add_f(dx.x, dy.x), dz.x),
            y: add_f(add_f(dx.y, dy.y), dz.y),
            z: add_f(add_f(dx.z, dy.z), dz.z),
        };
        parent.transform.delta_position(dp, dt);
        parent.view_dirty = true;
    }
}

/// Mouse-look: while the primary button is held, turns the camera against
/// the pointer movement at a fifth of a degree per pixel step.
#[derive(Clone, Copy, Debug, Default)]
pub struct MouseController {}

/// The camera after one mouse-look run.
pub open spec fn spec_mouse_look_applied(parent: Camera, dt: Fixed, input: Input) -> Camera {
    if input.mouse.buttons & crate::io::spec_button_mask(MouseButton::PRIMARY) != 0 {
        let t = parent.transform;
        let t1 = t.spec_with_rotation(
            t.spec_rotation_step(
                Vec3 {
                    x: spec_q_div(spec_neg(spec_px(input.mouse.dy)), FIVE),
                    y: spec_q_div(spec_neg(spec_px(input.mouse.dx)), FIVE),
                    z: 0,
                },
                dt,
            ),
        );
        Camera { transform: t1, view_dirty: true, ..parent }
    } else {
        parent
    }
}

impl Controller<Camera> for MouseController {
    open spec fn spec_applied(self, parent: Camera, dt: Fixed, input: Input) -> Camera {
        spec_mouse_look_applied(parent, dt, input)
    }

    fn update(&self, parent: &mut Camera, dt: Fixed, input: &Input) {
        let mouse = input.get_mouse();
        if mouse.is_down(MouseButton::PRIMARY) {
            let delta = Vec3 {
                x: div_f(neg_f(px(mouse.get_dy())), FIVE),
                y: div_f(neg_f(px(mouse.get_dx())), FIVE),
                z: 0,
            };
            parent.transform.delta_rotation(delta, dt);
            parent.view_dirty = true;
        }
    }
}

/// Drag-look: while the primary button is held, shifts the raw rotation
/// against the pointer movement at a fiftieth of a degree per pixel,
/// without re-normalizing.
#[derive(Clone, Copy, Debug, Default)]
pub struct CameraController {}

/// The camera after one drag-look run.
pub open spec fn spec_drag_applied(parent: Camera, dt: Fixed, input: Input) -> Camera {
    if input.mouse.buttons & crate::io::spec_button_mask(MouseButton::PRIMARY) != 0 {
        let t = parent.transform;
        let t1 = Transform {
            rotation: Vec3 {
                x: spec_sub(t.rotation.x, spec_q_div(spec_px(input.mouse.dy), FIFTY)),
                y: spec_sub(t.rotation.y, spec_q_div(spec_px(input.mouse.dx), FIFTY)),
                z: t.rotation.z,
            },
            matrix_update: true,
            ..t
        };
        Camera { transform: t1, view_dirty: true, ..parent }
    } else {
        parent
    }
}

impl Controller<Camera> for CameraController {
    open spec fn spec_applied(self, parent: Camera, dt: Fixed, input: Input) -> Camera {
        spec_drag_applied(parent, dt, input)
    }

    fn update(&self, parent: &mut Camera, dt: Fixed, input: &Input) {
        let mouse = input.get_mouse();
        if mouse.is_down(MouseButton::PRIMARY) {
            let rotation = Vec3 {
                x: sub_f(parent.transform.rotation.x, div_f(px(mouse.get_dy()), FIFTY)),
                y: sub_f(parent.transform.rotation.y, div_f(px(mouse.get_dx()), FIFTY)),
                z: parent.transform.rotation.z,
            };
            parent.transform.rotation = rotation;
            parent.transform.matrix_update = true;
            parent.view_dirty = true;
        }
    }
}

} // verus!
