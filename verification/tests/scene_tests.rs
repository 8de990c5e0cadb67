use scene_engine::builder::{Builder, CameraBuilder, ObjectBuilder};
use scene_engine::camera::Viewport;
use scene_engine::fixed::UNIT;
use scene_engine::component::HasComponents;
use scene_engine::mat::Vec3;
use scene_engine::scene::Scene;

fn fx(v: f64) -> i64 {
    (v * UNIT as f64).round() as i64
}

#[test]
fn split_screen_renders_one_pass_per_camera() {
    let mut scene = Scene::default();
    let left = CameraBuilder::default()
        .set_viewport(Viewport { x: 0, y: 0, width: fx(0.5), height: fx(1.0) })
        .unwrap()
        .build()
        .unwrap();
    let right = CameraBuilder::default()
        .set_viewport(Viewport { x: fx(0.5), y: 0, width: fx(0.5), height: fx(1.0) })
        .unwrap()
        .build()
        .unwrap();
    scene.push_camera(left);
    scene.push_camera(right);
    scene.push_object(ObjectBuilder::default().set_program(3).unwrap().build().unwrap());
    scene.init();

    let passes = scene.render(800, 600);
    // One pass per camera, in attachment order: left first, then right.
    assert_eq!(passes.len(), 2);
    assert_eq!(passes[0].viewport.x, 0);
    assert_eq!(passes[1].viewport.x, 400);
    assert_eq!(passes[0].draws.len(), 1);
    assert_eq!(passes[1].draws.len(), 1);
    assert_eq!(passes[0].draws[0].program, 3);
    // Both passes draw the same object list against their own viewport.
    assert_eq!(passes[0].draws[0].world, passes[1].draws[0].world);
}

#[test]
fn empty_scene_renders_no_passes() {
    let mut scene = Scene::default();
    let passes = scene.render(800, 600);
    assert!(passes.is_empty());
}

#[test]
fn camera_only_scene_renders_empty_passes() {
    let mut scene = Scene::default();
    scene.push_camera(CameraBuilder::default().build().unwrap());
    let passes = scene.render(320, 200);
    assert_eq!(passes.len(), 1);
    assert!(passes[0].draws.is_empty());
    assert_eq!(passes[0].viewport.width, 320);
    assert_eq!(passes[0].viewport.height, 200);
}

#[test]
fn negative_viewport_components_are_absolute() {
    let mut scene = Scene::default();
    let cam = CameraBuilder::default()
        .set_viewport(Viewport { x: fx(-10.0), y: fx(2.0), width: fx(0.25), height: fx(300.0) })
        .unwrap()
        .build()
        .unwrap();
    scene.push_camera(cam);
    let passes = scene.render(800, 600);
    let v = passes[0].viewport;
    // Negative or above-one components pass through as pixels; a size in
    // `(0, 1]` still scales; a y of two is absolute.
    assert_eq!(v.x, -10);
    assert_eq!(v.y, 2);
    assert_eq!(v.width, 200);
    assert_eq!(v.height, 300);
}

#[test]
fn zero_or_negative_sizes_are_absolute() {
    let mut scene = Scene::default();
    let cam = CameraBuilder::default()
        .set_viewport(Viewport { x: 0, y: 0, width: fx(-1.0), height: 0 })
        .unwrap()
        .build()
        .unwrap();
    scene.push_camera(cam);
    let passes = scene.render(800, 600);
    let v = passes[0].viewport;
    // A width of minus one is absolute pixels, not minus one canvas width.
    assert_eq!(v.width, -1);
    assert_eq!(v.height, 0);
}

#[test]
fn normal_matrix_inverts_scale() {
    let mut scene = Scene::default();
    scene.push_camera(CameraBuilder::default().build().unwrap());
    scene.push_object(
        ObjectBuilder::default()
            .set_program(1)
            .unwrap()
            .set_scale(Vec3::new(fx(2.0), fx(2.0), fx(2.0)))
            .unwrap()
            .build()
            .unwrap(),
    );
    scene.init();
    // Refresh the object's matrix cache as the frame pipeline would.
    scene.update_components(fx(16.0));
    let passes = scene.render(800, 600);
    let d = &passes[0].draws[0];
    assert_eq!(d.world.e0, fx(2.0));
    // The normal matrix is the transpose of the inverse of the world
    // matrix: a uniform double scale inverts to one half.
    assert_eq!(d.normal.e0, fx(0.5));
    assert_eq!(d.normal.e5, fx(0.5));
    assert_eq!(d.normal.e10, fx(0.5));
}

#[test]
fn second_init_allocates_nothing() {
    let mut scene = Scene::default();
    scene.push_object(ObjectBuilder::default().set_program(1).unwrap().build().unwrap());
    scene.push_object(ObjectBuilder::default().set_program(2).unwrap().build().unwrap());
    assert_eq!(scene.init().len(), 1);
    assert_eq!(scene.init().len(), 0);
}

#[test]
fn canvas_dimensions_set_every_camera_aspect() {
    let mut scene = Scene::default();
    scene.push_camera(CameraBuilder::default().build().unwrap());
    scene.push_camera(CameraBuilder::default().build().unwrap());
    scene.set_canvas_dimensions(fx(1920.0), fx(1080.0));
    // The quotient truncates: 1920 / 1080 is 1.777777 in six decimal places.
    assert_eq!(scene.cameras.get(0).get_aspect(), 1_777_777);
    assert_eq!(scene.cameras.get(1).get_aspect(), 1_777_777);
}
