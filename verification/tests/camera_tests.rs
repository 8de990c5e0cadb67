use scene_engine::camera::{Camera, PixelRect, Viewport};
use scene_engine::fixed::UNIT;
use scene_engine::mat::Vec3;

fn fx(v: f64) -> i64 {
    (v * UNIT as f64).round() as i64
}

#[test]
fn fractional_viewport_scales_against_canvas() {
    let mut c = Camera::default();
    c.set_viewport(Viewport { x: fx(0.5), y: 0, width: fx(0.5), height: fx(1.0) });
    let r = c.attach_viewport(800, 600);
    assert_eq!(r, PixelRect { x: 400, y: 0, width: 400, height: 600 });
}

#[test]
fn absolute_viewport_passes_through() {
    let mut c = Camera::default();
    c.set_viewport(Viewport { x: fx(100.0), y: 0, width: fx(200.0), height: fx(600.0) });
    let r = c.attach_viewport(800, 600);
    assert_eq!(r, PixelRect { x: 100, y: 0, width: 200, height: 600 });
}

#[test]
fn size_fraction_rule_matches_position_rule() {
    let mut c = Camera::default();
    c.set_viewport(Viewport { x: fx(-1.0), y: fx(1.0), width: fx(-1.0), height: fx(1.0) });
    let r = c.attach_viewport(800, 600);
    // Every component follows the same rule: a fraction only in `(0, 1]`.
    assert_eq!(r, PixelRect { x: -1, y: 600, width: -1, height: 600 });
}

#[test]
fn default_viewport_covers_canvas() {
    let c = Camera::default();
    let r = c.attach_viewport(1280, 720);
    assert_eq!(r, PixelRect { x: 0, y: 0, width: 1280, height: 720 });
}

#[test]
fn fov_change_leaves_view_matrix_alone() {
    let mut c = Camera::default();
    c.set_position(Vec3::new(0, fx(5.0), 0));
    c.set_rotation(Vec3::new(fx(10.0), 0, 0));
    let before = c.get_camera_matrix();
    c.set_fov(fx(75.0));
    let after = c.get_camera_matrix();
    assert_eq!(before, after);
}

#[test]
fn movement_leaves_projection_matrix_alone() {
    let mut c = Camera::default();
    c.set_aspect(fx(1.5));
    let before = c.get_projection_matrix();
    c.set_position(Vec3::new(fx(9.0), 0, 0));
    c.set_rotation(Vec3::new(0, fx(45.0), 0));
    let after = c.get_projection_matrix();
    assert_eq!(before, after);
}

#[test]
fn view_matrix_inverts_the_camera_pose() {
    let mut c = Camera::default();
    // A pitch of 180 cancels the pitch convention: the view is then the
    // pure translation by the negated position.
    c.set_position(Vec3::new(0, fx(5.0), 0));
    c.set_rotation(Vec3::new(fx(180.0), 0, 0));
    let m = c.get_camera_matrix();
    assert_eq!(m.e0, UNIT);
    assert_eq!(m.e5, UNIT);
    assert_eq!(m.e10, UNIT);
    assert_eq!(m.e12, 0);
    assert_eq!(m.e13, fx(-5.0));
    assert_eq!(m.e14, 0);
}

#[test]
fn projection_recomputes_on_parameter_change() {
    let mut c = Camera::default();
    c.set_aspect(fx(1.0));
    c.set_fov(fx(90.0));
    let m = c.get_projection_matrix();
    assert_eq!(m.e0, UNIT);
    assert_eq!(m.e5, UNIT);
    c.set_fov(fx(60.0));
    let m2 = c.get_projection_matrix();
    assert_ne!(m.e0, m2.e0);
}

#[test]
fn setters_store_their_values() {
    let mut c = Camera::default();
    c.set_fov(fx(60.0));
    c.set_near(fx(0.5));
    c.set_far(fx(500.0));
    c.set_aspect(fx(1.25));
    assert_eq!(c.get_fov(), fx(60.0));
    assert_eq!(c.get_near(), fx(0.5));
    assert_eq!(c.get_far(), fx(500.0));
    assert_eq!(c.get_aspect(), fx(1.25));
    c.set_position(Vec3::new(fx(1.0), fx(2.0), fx(3.0)));
    assert_eq!(*c.get_position(), Vec3::new(fx(1.0), fx(2.0), fx(3.0)));
    c.set_rotation(Vec3::new(fx(-90.0), 0, 0));
    assert_eq!(*c.get_rotation(), Vec3::new(fx(270.0), 0, 0));
}
