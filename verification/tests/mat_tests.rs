use scene_engine::fixed::{add_f, div_f, mul_f, neg_f, sub_f, UNIT};
use scene_engine::mat::{identity, inverse, perspective, rotate, scale, translate, transpose, Mat4, Vec3};
use scene_engine::trig::{cos_f, sin_f};

fn fx(v: f64) -> i64 {
    (v * UNIT as f64).round() as i64
}

#[test]
fn scalar_arithmetic() {
    assert_eq!(add_f(fx(1.5), fx(2.25)), fx(3.75));
    assert_eq!(sub_f(fx(1.0), fx(2.5)), fx(-1.5));
    assert_eq!(mul_f(fx(1.5), fx(-2.0)), fx(-3.0));
    assert_eq!(div_f(fx(3.0), fx(2.0)), fx(1.5));
    assert_eq!(div_f(fx(3.0), 0), 0);
    assert_eq!(neg_f(fx(4.0)), fx(-4.0));
    assert_eq!(add_f(i64::MAX, i64::MAX), i64::MAX);
}

#[test]
fn trig_exact_at_quarter_turns() {
    assert_eq!(sin_f(0), 0);
    assert_eq!(sin_f(fx(90.0)), UNIT);
    assert_eq!(sin_f(fx(180.0)), 0);
    assert_eq!(sin_f(fx(270.0)), -UNIT);
    assert_eq!(cos_f(0), UNIT);
    assert_eq!(cos_f(fx(90.0)), 0);
    assert_eq!(cos_f(fx(180.0)), -UNIT);
    assert_eq!(cos_f(fx(-90.0)), 0);
    // The rational approximation at an interior angle.
    assert_eq!(sin_f(fx(45.0)), 705882);
    assert_eq!(cos_f(fx(45.0)), 705882);
    assert_eq!(sin_f(fx(30.0)), 500000);
}

#[test]
fn translate_fills_last_column() {
    let base = identity();
    let m = translate(&base, &Vec3::new(fx(2.0), fx(3.0), fx(4.0)));
    let cols = m.column_major();
    assert_eq!(
        cols,
        vec![UNIT, 0, 0, 0, 0, UNIT, 0, 0, 0, 0, UNIT, 0, fx(2.0), fx(3.0), fx(4.0), UNIT]
    );
}

#[test]
fn scale_multiplies_diagonal() {
    let base = identity();
    let m = scale(&base, &Vec3::new(fx(2.0), fx(3.0), fx(4.0)));
    assert_eq!(m.e0, fx(2.0));
    assert_eq!(m.e5, fx(3.0));
    assert_eq!(m.e10, fx(4.0));
    assert_eq!(m.e15, UNIT);
}

#[test]
fn rotate_quarter_turn_about_x() {
    let base = identity();
    let m = rotate(&base, &Vec3::new(fx(90.0), 0, 0));
    // The y axis maps onto z, the z axis onto negative y.
    assert_eq!((m.e4, m.e5, m.e6), (0, 0, UNIT));
    assert_eq!((m.e8, m.e9, m.e10), (0, -UNIT, 0));
    assert_eq!((m.e0, m.e1, m.e2), (UNIT, 0, 0));
}

#[test]
fn transpose_swaps_rows_and_columns() {
    let base = identity();
    let m = translate(&base, &Vec3::new(fx(2.0), fx(3.0), fx(4.0)));
    let t = transpose(&m);
    assert_eq!(t.e3, fx(2.0));
    assert_eq!(t.e7, fx(3.0));
    assert_eq!(t.e11, fx(4.0));
    assert_eq!(t.e12, 0);
    assert_eq!(transpose(&t), m);
}

#[test]
fn inverse_of_identity_and_scale() {
    let base = identity();
    assert_eq!(inverse(&base), base);
    let s = scale(&base, &Vec3::new(fx(2.0), fx(2.0), fx(2.0)));
    let inv = inverse(&s);
    assert_eq!(inv.e0, fx(0.5));
    assert_eq!(inv.e5, fx(0.5));
    assert_eq!(inv.e10, fx(0.5));
    assert_eq!(inv.e15, UNIT);
    assert_eq!(inv.e1, 0);
}

#[test]
fn inverse_of_translation_negates_it() {
    let base = identity();
    let t = translate(&base, &Vec3::new(fx(2.0), fx(3.0), fx(4.0)));
    let inv = inverse(&t);
    let cols = inv.column_major();
    assert_eq!(
        cols,
        vec![UNIT, 0, 0, 0, 0, UNIT, 0, 0, 0, 0, UNIT, 0, fx(-2.0), fx(-3.0), fx(-4.0), UNIT]
    );
}

#[test]
fn singular_matrix_inverts_to_identity() {
    let z = Mat4 {
        e0: 0, e1: 0, e2: 0, e3: 0,
        e4: 0, e5: 0, e6: 0, e7: 0,
        e8: 0, e9: 0, e10: 0, e11: 0,
        e12: 0, e13: 0, e14: 0, e15: 0,
    };
    assert_eq!(inverse(&z), identity());
}

#[test]
fn perspective_square_quarter_fov() {
    // A 90-degree field of view at aspect one: the tangent of the half
    // angle is exactly one, so the focal terms are exactly one.
    let m = perspective(fx(90.0), fx(1.0), fx(0.01), fx(1000.0));
    assert_eq!(m.e0, UNIT);
    assert_eq!(m.e5, UNIT);
    assert_eq!(m.e8, 0);
    assert_eq!(m.e9, 0);
    assert_eq!(m.e10, -1_000_020);
    assert_eq!(m.e11, -UNIT);
    assert_eq!(m.e14, -20_000);
    assert_eq!(m.e15, 0);
}
