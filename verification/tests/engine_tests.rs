use scene_engine::builder::{AttachBuilder, AttachController, Builder, CameraBuilder, EngineBuilder, ObjectBuilder, SceneBuilder};
use scene_engine::cube::CUBE_MESH;
use scene_engine::fixed::UNIT;
use scene_engine::game::Rotate;
use scene_engine::io::Input;
use scene_engine::mat::Vec3;

fn fx(v: f64) -> i64 {
    (v * UNIT as f64).round() as i64
}

#[test]
fn init_allocates_shared_geometry_once() {
    let mut engine = EngineBuilder::default()
        .attach_builder(
            SceneBuilder::default()
                .attach_builder(ObjectBuilder::default().set_program(1).unwrap())
                .unwrap()
                .attach_builder(ObjectBuilder::default().set_program(1).unwrap())
                .unwrap(),
        )
        .unwrap()
        .build()
        .unwrap();
    // Two cubes share one mesh: one allocation, not two.
    let plan = engine.init();
    assert_eq!(plan, vec![CUBE_MESH]);
    // A second init has nothing left to allocate.
    let again = engine.init();
    assert_eq!(again, Vec::<u32>::new());
}

#[test]
fn static_scene_tick_leaves_objects_alone() {
    let mut engine = EngineBuilder::default()
        .attach_builder(
            SceneBuilder::default()
                .attach_builder(
                    CameraBuilder::default()
                        .set_position(Vec3::new(0, fx(5.0), 0))
                        .unwrap()
                        .set_rotation(Vec3::new(fx(10.0), 0, 0))
                        .unwrap(),
                )
                .unwrap()
                .attach_builder(
                    ObjectBuilder::default()
                        .set_program(1)
                        .unwrap()
                        .set_scale(Vec3::new(fx(5.0), fx(1.0), fx(5.0)))
                        .unwrap(),
                )
                .unwrap()
                .attach_builder(
                    ObjectBuilder::default()
                        .set_program(1)
                        .unwrap()
                        .set_position(Vec3::new(fx(-15.0), 0, 0))
                        .unwrap()
                        .set_scale(Vec3::new(fx(4.0), fx(4.0), fx(4.0)))
                        .unwrap(),
                )
                .unwrap(),
        )
        .unwrap()
        .build()
        .unwrap();
    engine.init();

    let passes = engine.update(fx(16.0), &Input::default(), 800, 600);

    // One camera: one pass drawing both objects, in attachment order.
    assert_eq!(passes.len(), 1);
    assert_eq!(passes[0].draws.len(), 2);

    // No controllers were attached, so no object was moved by the tick.
    let scene = engine.get_current_scene();
    assert_eq!(*scene.objects.get(0).transform.get_position(), Vec3::new(0, 0, 0));
    assert_eq!(*scene.objects.get(0).transform.get_scale(), Vec3::new(fx(5.0), fx(1.0), fx(5.0)));
    assert_eq!(
        *scene.objects.get(1).transform.get_position(),
        Vec3::new(fx(-15.0), 0, 0)
    );

    // The world matrices handed to the backend are the built poses.
    assert_eq!(passes[0].draws[0].world, scene.objects.get(0).transform.matrix);
    assert_eq!(passes[0].draws[1].world, scene.objects.get(1).transform.matrix);
    assert_eq!(passes[0].draws[1].world.e12, fx(-15.0));
    assert_eq!(passes[0].draws[1].world.e0, fx(4.0));

    // Both draws share the camera's one cached view matrix: it was
    // recomputed once for the frame, not once per object.
    assert_eq!(passes[0].draws[0].view, passes[0].draws[1].view);
    let camera = scene.cameras.get(0);
    assert!(!camera.view_dirty);
    assert!(!camera.projection_dirty);
    assert_eq!(passes[0].draws[0].view, camera.camera_matrix);

    // The canvas size reached the camera as its aspect ratio.
    assert_eq!(camera.get_aspect(), fx(800.0 / 600.0));
}

#[test]
fn tick_runs_controllers_after_components() {
    let mut engine = EngineBuilder::default()
        .attach_builder(
            SceneBuilder::default()
                .attach_builder(
                    ObjectBuilder::default()
                        .set_program(1)
                        .unwrap()
                        .attach_controller(Rotate { speed: fx(2.0) })
                        .unwrap(),
                )
                .unwrap()
                .attach_builder(CameraBuilder::default())
                .unwrap(),
        )
        .unwrap()
        .build()
        .unwrap();
    engine.init();
    let _ = engine.update(fx(30.0), &Input::default(), 800, 600);
    let scene = engine.get_current_scene();
    // Rotate adds (1, 2, 0) times speed times dt / 30: dt is 30, speed 2.
    assert_eq!(*scene.objects.get(0).transform.get_rotation(), Vec3::new(fx(2.0), fx(4.0), 0));
}

#[test]
fn successive_ticks_advance_time() {
    let mut engine = EngineBuilder::default()
        .attach_builder(
            SceneBuilder::default()
                .attach_builder(
                    ObjectBuilder::default()
                        .set_program(1)
                        .unwrap()
                        .attach_controller(Rotate { speed: fx(1.0) })
                        .unwrap(),
                )
                .unwrap(),
        )
        .unwrap()
        .build()
        .unwrap();
    engine.init();
    let _ = engine.update(fx(30.0), &Input::default(), 800, 600);
    let _ = engine.update(fx(60.0), &Input::default(), 800, 600);
    let scene = engine.get_current_scene();
    // Two frames of 30 each: rotation advanced twice by (1, 2, 0).
    assert_eq!(*scene.objects.get(0).transform.get_rotation(), Vec3::new(fx(2.0), fx(4.0), 0));
}
