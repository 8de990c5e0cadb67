use scene_engine::fixed::UNIT;
use scene_engine::mat::Vec3;
use scene_engine::transform::{normalize_rotation, Transform};

fn fx(v: f64) -> i64 {
    (v * UNIT as f64).round() as i64
}

#[test]
fn rotation_normalization_example() {
    let mut t = Transform::default();
    t.set_rotation(Vec3::new(fx(-90.0), fx(370.0), 0));
    let r = *t.get_rotation();
    assert_eq!(r.x, fx(270.0));
    assert_eq!(r.y, fx(10.0));
    assert_eq!(r.z, 0);
}

#[test]
fn rotation_normalization_boundaries() {
    let n = normalize_rotation(&Vec3::new(0, fx(360.0), fx(-360.0)));
    assert_eq!(n.x, 0);
    assert_eq!(n.y, 0);
    assert_eq!(n.z, 0);
    let n2 = normalize_rotation(&Vec3::new(fx(359.5), fx(-0.5), fx(720.25)));
    assert_eq!(n2.x, fx(359.5));
    assert_eq!(n2.y, fx(359.5));
    assert_eq!(n2.z, fx(0.25));
}

#[test]
fn matrix_recompute_after_set_position() {
    let mut t = Transform::default();
    t.set_position(Vec3::new(fx(2.0), fx(3.0), fx(4.0)));
    let m = t.get_matrix();
    // Pure translation: identity block plus the position in the last column.
    assert_eq!(m.e0, UNIT);
    assert_eq!(m.e5, UNIT);
    assert_eq!(m.e10, UNIT);
    assert_eq!(m.e15, UNIT);
    assert_eq!(m.e12, fx(2.0));
    assert_eq!(m.e13, fx(3.0));
    assert_eq!(m.e14, fx(4.0));
    assert_eq!(m.e1, 0);
    assert_eq!(m.e4, 0);
}

#[test]
fn matrix_cached_between_reads() {
    let mut t = Transform::default();
    t.set_position(Vec3::new(fx(1.0), fx(-2.0), fx(7.5)));
    t.set_rotation(Vec3::new(fx(10.0), fx(20.0), fx(30.0)));
    t.set_scale(Vec3::new(fx(2.0), fx(2.0), fx(2.0)));
    let first = t.get_matrix();
    let second = t.get_matrix();
    assert_eq!(first, second);
}

#[test]
fn delta_position_divides_by_frame_time() {
    let mut t = Transform::default();
    t.delta_position(Vec3::new(fx(4.0), fx(-6.0), 0), fx(2.0));
    let p = *t.get_position();
    assert_eq!(p.x, fx(2.0));
    assert_eq!(p.y, fx(-3.0));
    assert_eq!(p.z, 0);
}

#[test]
fn delta_rotation_scales_and_normalizes() {
    let mut t = Transform::default();
    t.delta_rotation(Vec3::new(fx(30.0), 0, 0), fx(2.0));
    assert_eq!(t.get_rotation().x, fx(2.0));
    // A negative accumulated angle folds to just below a full turn.
    let mut u = Transform::default();
    u.delta_rotation(Vec3::new(fx(-30.0), 0, 0), fx(1.0));
    assert_eq!(u.get_rotation().x, fx(359.0));
}

#[test]
fn forward_follows_pitch() {
    let mut t = Transform::default();
    // With no rotation the forward vector points down the negative y axis.
    assert_eq!(t.get_forward(), Vec3::new(0, -UNIT, 0));
    // A quarter-turn pitch points it down the positive z axis.
    t.set_rotation(Vec3::new(fx(90.0), 0, 0));
    assert_eq!(t.get_forward(), Vec3::new(0, 0, UNIT));
}

#[test]
fn left_follows_yaw() {
    let t = Transform::default();
    assert_eq!(t.get_left(), Vec3::new(UNIT, 0, 0));
}

#[test]
fn default_transform_values() {
    let t = Transform::default();
    assert_eq!(*t.get_position(), Vec3::new(0, 0, 0));
    assert_eq!(*t.get_rotation(), Vec3::new(0, 0, 0));
    assert_eq!(*t.get_scale(), Vec3::new(UNIT, UNIT, UNIT));
}
