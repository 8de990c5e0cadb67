use scene_engine::builder::{
    AttachBuilder, AttachComponent, AttachComponentBuilder, AttachController, Builder,
    CameraBuilder, EngineBuilder, ObjectBuilder, SceneBuilder, TransformBuilder,
};
use scene_engine::camera::Viewport;
use scene_engine::component::HasComponent;
use scene_engine::controller::HasController;
use scene_engine::fixed::UNIT;
use scene_engine::game::Rotate;
use scene_engine::mat::Vec3;
use scene_engine::shader::Shader;
use scene_engine::transform::Transform;

fn fx(v: f64) -> i64 {
    (v * UNIT as f64).round() as i64
}

#[test]
fn transform_builder_round_trip() {
    let t = TransformBuilder::default()
        .set_position(Vec3::new(fx(1.0), fx(2.0), fx(3.0)))
        .unwrap()
        .set_scale(Vec3::new(fx(5.0), fx(1.0), fx(5.0)))
        .unwrap()
        .build()
        .unwrap();
    assert_eq!(*t.get_position(), Vec3::new(fx(1.0), fx(2.0), fx(3.0)));
    assert_eq!(*t.get_scale(), Vec3::new(fx(5.0), fx(1.0), fx(5.0)));
    // Unset fields keep their defaults.
    assert_eq!(*t.get_rotation(), Vec3::new(0, 0, 0));
}

#[test]
fn transform_builder_defaults() {
    let t = TransformBuilder::default().build().unwrap();
    assert_eq!(*t.get_position(), Vec3::new(0, 0, 0));
    assert_eq!(*t.get_scale(), Vec3::new(UNIT, UNIT, UNIT));
}

#[test]
fn object_builder_sets_pose_and_program() {
    let cube = ObjectBuilder::default()
        .set_program(7)
        .unwrap()
        .set_position(Vec3::new(fx(-15.0), 0, 0))
        .unwrap()
        .set_scale(Vec3::new(fx(4.0), fx(4.0), fx(4.0)))
        .unwrap()
        .build()
        .unwrap();
    assert_eq!(cube.shader.get_program(), 7);
    assert_eq!(*cube.transform.get_position(), Vec3::new(fx(-15.0), 0, 0));
    assert_eq!(*cube.transform.get_scale(), Vec3::new(fx(4.0), fx(4.0), fx(4.0)));
}

#[test]
fn attach_component_stores_shader() {
    let cube = ObjectBuilder::default()
        .attach_component(Shader::from(9u32))
        .unwrap()
        .build()
        .unwrap();
    assert_eq!(cube.shader.get_program(), 9);
}

#[test]
fn attach_component_builder_stores_built_transform() {
    let cube = ObjectBuilder::default()
        .attach_component_builder(
            TransformBuilder::default().set_position(Vec3::new(0, fx(5.0), 0)).unwrap(),
        )
        .unwrap()
        .build()
        .unwrap();
    let t: &Transform = cube.get_component().unwrap();
    assert_eq!(*t.get_position(), Vec3::new(0, fx(5.0), 0));
}

#[test]
fn attach_controller_appends() {
    let cube = ObjectBuilder::default()
        .attach_controller(Rotate { speed: fx(2.0) })
        .unwrap()
        .build()
        .unwrap();
    assert_eq!(cube.controllers.len(), 1);
    assert_eq!(cube.get_controller().speed, fx(2.0));
}

#[test]
fn camera_builder_sets_projection_state() {
    let cam = CameraBuilder::default()
        .set_fov(fx(60.0))
        .unwrap()
        .set_near(fx(0.1))
        .unwrap()
        .set_far(fx(100.0))
        .unwrap()
        .set_viewport(Viewport { x: 0, y: 0, width: fx(0.5), height: fx(1.0) })
        .unwrap()
        .set_position(Vec3::new(0, fx(5.0), 0))
        .unwrap()
        .set_rotation(Vec3::new(fx(10.0), 0, 0))
        .unwrap()
        .build()
        .unwrap();
    assert_eq!(cam.get_fov(), fx(60.0));
    assert_eq!(cam.get_near(), fx(0.1));
    assert_eq!(cam.get_far(), fx(100.0));
    assert_eq!(cam.get_viewport().width, fx(0.5));
    assert_eq!(*cam.get_position(), Vec3::new(0, fx(5.0), 0));
    assert_eq!(*cam.get_rotation(), Vec3::new(fx(10.0), 0, 0));
}

#[test]
fn scene_builder_collects_children_in_order() {
    let scene = SceneBuilder::default()
        .attach_builder(ObjectBuilder::default().set_program(1).unwrap())
        .unwrap()
        .attach_builder(ObjectBuilder::default().set_program(2).unwrap())
        .unwrap()
        .attach_builder(CameraBuilder::default())
        .unwrap()
        .build()
        .unwrap();
    assert_eq!(scene.objects.len(), 2);
    assert_eq!(scene.cameras.len(), 1);
    assert_eq!(scene.objects.get(0).shader.get_program(), 1);
    assert_eq!(scene.objects.get(1).shader.get_program(), 2);
}

#[test]
fn engine_builder_collects_scenes() {
    let engine = EngineBuilder::default()
        .attach_builder(SceneBuilder::default())
        .unwrap()
        .build()
        .unwrap();
    assert_eq!(engine.scenes.len(), 1);
    assert_eq!(engine.get_scene_index(), 0);
}
