use scene_engine::builder::{AttachController, Builder, CameraBuilder, ObjectBuilder};
use scene_engine::controller::{Controller, HasControllers};
use scene_engine::fixed::UNIT;
use scene_engine::game::{CameraController, FPSController, MouseController, Rotate};
use scene_engine::io::{Input, Keyboard, Mouse};
use scene_engine::mat::Vec3;

fn fx(v: f64) -> i64 {
    (v * UNIT as f64).round() as i64
}

#[test]
fn rotate_spins_object_each_frame() {
    let mut cube = ObjectBuilder::default().build().unwrap();
    let rotate = Rotate { speed: fx(2.0) };
    rotate.update(&mut cube, fx(15.0), &Input::default());
    // Delta is (1, 2, 0) times speed, scaled by dt / 30 = one half.
    assert_eq!(*cube.transform.get_rotation(), Vec3::new(fx(1.0), fx(2.0), 0));
}

#[test]
fn fps_controller_moves_along_held_keys() {
    let mut camera = CameraBuilder::default()
        .set_position(Vec3::new(0, fx(5.0), 0))
        .unwrap()
        .build()
        .unwrap();
    let mut keyboard = Keyboard::default();
    keyboard.up = true;
    let input = Input::new(Mouse::default(), keyboard);
    let fps = FPSController::default();
    fps.update(&mut camera, fx(16.0), &input);
    // Upward movement: the unit vertical delta divided by the frame time.
    let p = *camera.get_position();
    assert_eq!(p.x, 0);
    assert_eq!(p.y, fx(5.0) + 62_500);
    assert_eq!(p.z, 0);
    assert!(camera.view_dirty);
}

#[test]
fn fps_controller_turns_on_mouse_drag() {
    let mut camera = CameraBuilder::default().build().unwrap();
    let input = Input::new(Mouse::new(1, 30, 15), Keyboard::default());
    let fps = FPSController::default();
    fps.update(&mut camera, fx(16.0), &input);
    // Look delta is (dy, dx, 0) pixels at half the frame time over the
    // rotation divisor: 15 * 8 / 30 = 4 and 30 * 8 / 30 = 8 degrees.
    let r = *camera.get_rotation();
    assert_eq!(r.x, fx(4.0));
    assert_eq!(r.y, fx(8.0));
}

#[test]
fn mouse_look_only_acts_while_pressed() {
    let mut camera = CameraBuilder::default().build().unwrap();
    let idle = Input::new(Mouse::new(0, 50, 50), Keyboard::default());
    let mouse_look = MouseController::default();
    mouse_look.update(&mut camera, fx(30.0), &idle);
    assert_eq!(*camera.get_rotation(), Vec3::new(0, 0, 0));
    let pressed = Input::new(Mouse::new(1, 50, 25), Keyboard::default());
    mouse_look.update(&mut camera, fx(30.0), &pressed);
    // Delta is (-dy/5, -dx/5, 0) degrees times dt / 30 = one: folded into
    // [0, 360).
    let r = *camera.get_rotation();
    assert_eq!(r.x, fx(355.0));
    assert_eq!(r.y, fx(350.0));
}

#[test]
fn drag_look_shifts_raw_rotation() {
    let mut camera = CameraBuilder::default().build().unwrap();
    let pressed = Input::new(Mouse::new(1, 100, 50), Keyboard::default());
    let drag = CameraController::default();
    drag.update(&mut camera, fx(16.0), &pressed);
    // The raw shift is (-dy/50, -dx/50, 0) degrees, not re-normalized.
    let r = *camera.get_rotation();
    assert_eq!(r.x, fx(-1.0));
    assert_eq!(r.y, fx(-2.0));
}

#[test]
fn controllers_run_in_attachment_order() {
    let mut cube = ObjectBuilder::default()
        .attach_controller(Rotate { speed: fx(1.0) })
        .unwrap()
        .attach_controller(Rotate { speed: fx(2.0) })
        .unwrap()
        .build()
        .unwrap();
    cube.update_controllers(fx(30.0), &Input::default());
    // Both rotations applied: (1 + 2, 2 + 4, 0) degrees.
    assert_eq!(*cube.transform.get_rotation(), Vec3::new(fx(3.0), fx(6.0), 0));
}
