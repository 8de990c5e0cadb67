//! The fluent builder protocol.
//!
//! Each entity type has a builder that starts from the entity's default,
//! exposes typed setters that mutate and return the builder, and is
//! consumed by `build`. The generic attachment traits work against any
//! builder whose target declares the matching capability: a component slot,
//! a controller slot, or a children collection for child builders.
use vstd::prelude::*;

use crate::camera::{Camera, Viewport};
use crate::children::Children;
use crate::component::{Component, HasComponent, HasComponents};
use crate::controller::{Controller, HasController};
use crate::cube::Cube;
use crate::engine::Engine;
use crate::fixed::Fixed;
use crate::mat::Vec3;
use crate::scene::Scene;
use crate::shader::Shader;
use crate::transform::{spec_default_transform, Transform};

verus! {

/// A fluent, consuming constructor for a `T`.
pub trait Builder<T>: Sized {
    /// The entity accumulated so far.
    spec fn spec_inner(&self) -> T;

    fn get_inner(&self) -> (r: &T)
        ensures
            *r == self.spec_inner(),
    ;

    fn get_inner_mut(&mut self) -> (r: &mut T)
        ensures
            *r == old(self).spec_inner(),
            final(self).spec_inner() == *final(r),
    ;

    /// Yields the accumulated entity.
    fn build(self) -> (r: Result<T, &'static str>)
        ensures
            r matches Ok(t) && t == self.spec_inner(),
    ;

    /// Yields the accumulated entity on the heap.
    fn boxed(self) -> (r: Result<Box<T>, &'static str>)
        ensures
            r matches Ok(b) && *b == self.spec_inner(),
    {
        match self.build() {
            Ok(t) => Ok(Box::new(t)),
            Err(e) => Err(e),
        }
    }
}

/// Attaching a component to the entity under construction.
pub trait AttachComponent<T: Component, U: HasComponent<T>>: Builder<U> {
    fn attach_component(self, component: T) -> (r: Result<Self, &'static str>);
}

impl<T: Component, U: HasComponent<T> + Default, B: Builder<U>> AttachComponent<T, U> for B {
    /// Stores the component in the target's typed slot.
    fn attach_component(self, component: T) -> (r: Result<Self, &'static str>)
        ensures
            r matches Ok(b) && b.spec_inner() == self.spec_inner().spec_with_component(component),
    {
        let mut s = self;
        let inner = s.get_inner_mut();
        inner.attach_component(component);
        Ok(s)
    }
}

/// Attaching the product of a component builder.
pub trait AttachComponentBuilder<T: Component, B: Builder<T>, U: HasComponent<T>>: Builder<U> {
    fn attach_component_builder(self, builder: B) -> (r: Result<Self, &'static str>);
}

impl<T: Component, B: Builder<T>, U: HasComponent<T> + Default, B2: Builder<U>> AttachComponentBuilder<
    T,
    B,
    U,
> for B2 {
    /// Builds the component and stores it in the target's typed slot.
    fn attach_component_builder(self, builder: B) -> (r: Result<Self, &'static str>)
        ensures
            r matches Ok(b2) && b2.spec_inner() == self.spec_inner().spec_with_component(
                builder.spec_inner(),
            ),
    {
        match builder.build() {
            Ok(component) => {
                let mut s = self;
                let inner = s.get_inner_mut();
                inner.attach_component(component);
                Ok(s)
            },
            Err(e) => Err(e),
        }
    }
}

/// Attaching a controller to the entity under construction.
pub trait AttachController<T: Controller<U>, U: HasController<U, T>>: Builder<U> {
    fn attach_controller(self, controller: T) -> (r: Result<Self, &'static str>);
}

impl<T: Controller<U>, U: HasController<U, T> + Default, B: Builder<U>> AttachController<
    T,
    U,
> for B {
    /// Appends the controller to the target's ordered controller list.
    fn attach_controller(self, controller: T) -> (r: Result<Self, &'static str>)
        ensures
            r matches Ok(b) && U::spec_controller_attached(
                self.spec_inner(),
                controller,
                b.spec_inner(),
            ),
    {
        let mut s = self;
        let inner = s.get_inner_mut();
        inner.attach_controller(controller);
        Ok(s)
    }
}

/// Attaching the product of a child builder to the entity's children.
pub trait AttachBuilder<T: HasComponents, B: Builder<T>, U>: Builder<U> {
    fn attach_builder(self, builder: B) -> (r: Result<Self, &'static str>);
}

impl<
    T: HasComponents,
    U: HasComponent<Children<T>> + Default,
    B: Builder<T>,
    B2: Builder<U>,
> AttachBuilder<T, B, U> for B2 {
    /// Builds the child and appends it to the target's children, starting a
    /// fresh collection when none is attached yet.
    fn attach_builder(self, builder: B) -> (r: Result<Self, &'static str>)
        ensures
            r matches Ok(b2) && ({
                let u0 = self.spec_inner();
                let u1 = b2.spec_inner();
                match <U as HasComponent<Children<T>>>::spec_component(&u0) {
                    Some(ch) => <U as HasComponent<Children<T>>>::spec_component(&u1) matches Some(
                        ch2,
                    ) && ch2@ == ch@.push(builder.spec_inner()) && u1 == u0.spec_with_component(
                        ch2,
                    ),
                    None => <U as HasComponent<Children<T>>>::spec_component(&u1) matches Some(ch2)
                        && ch2@ =~= seq![builder.spec_inner()] && u1 == u0.spec_with_component(ch2),
                }
            }),
    {
        match builder.build() {
            Ok(child) => {
                let mut s = self;
                let ghost u0 = s.spec_inner();
                let inner = s.get_inner_mut();
                match inner.get_component_mut() {
                    Ok(children) => {
                        children.push(child);
                        let ghost grown: Children<T> = *children;
                        proof {
                            U::lemma_with_component(u0, grown);
                        }
                    },
                    Err(_) => {
                        let fresh = Children::single(child);
                        let ghost freshv: Children<T> = fresh;
                        inner.attach_component(fresh);
                        proof {
                            U::lemma_with_component(u0, freshv);
                        }
                    },
                }
                Ok(s)
            },
            Err(e) => Err(e),
        }
    }
}

/// A fluent constructor for a transform.
pub struct TransformBuilder {
    inner: Transform,
}

impl TransformBuilder {
    pub fn set_position(self, position: Vec3) -> (r: Result<TransformBuilder, &'static str>)
        ensures
            r matches Ok(b) && b.spec_inner() == self.spec_inner().spec_with_position(position),
    {
        let mut s = self;
        s.inner.set_position(position);
        Ok(s)
    }

    pub fn set_rotation(self, rotation: Vec3) -> (r: Result<TransformBuilder, &'static str>)
        ensures
            r matches Ok(b) && b.spec_inner() == self.spec_inner().spec_with_rotation(rotation),
    {
        let mut s = self;
        s.inner.set_rotation(rotation);
        Ok(s)
    }

    pub fn set_scale(self, scaling: Vec3) -> (r: Result<TransformBuilder, &'static str>)
        ensures
            r matches Ok(b) && b.spec_inner() == self.spec_inner().spec_with_scale(scaling),
    {
        let mut s = self;
        s.inner.set_scale(scaling);
        Ok(s)
    }
}

impl Builder<Transform> for TransformBuilder {
    closed spec fn spec_inner(&self) -> Transform {
        self.inner
    }

    fn get_inner(&self) -> (r: &Transform) {
        &self.inner
    }

    fn get_inner_mut(&mut self) -> (r: &mut Transform) {
        &mut self.inner
    }

    fn build(self) -> (r: Result<Transform, &'static str>) {
        Ok(self.inner)
    }
}

impl Default for TransformBuilder {
    /// Starts from the default transform.
    fn default() -> (b: TransformBuilder)
        ensures
            b.spec_inner() == spec_default_transform(),
    {
        TransformBuilder { inner: Transform::default() }
    }
}

/// A fluent constructor for a renderable object.
pub struct ObjectBuilder {
    inner: Cube,
}

impl ObjectBuilder {
    /// Attaches a program handle to the object's shader.
    pub fn set_program(self, program: u32) -> (r: Result<ObjectBuilder, &'static str>)
        ensures
            r matches Ok(b) && b.spec_inner() == (Cube {
                shader: Shader { program: Some(program) },
                ..self.spec_inner()
            }),
    {
        let mut s = self;
        s.inner.shader = Shader { program: Some(program) };
        Ok(s)
    }

    pub fn set_position(self, position: Vec3) -> (r: Result<ObjectBuilder, &'static str>)
        ensures
            r matches Ok(b) && b.spec_inner() == (Cube {
                transform: self.spec_inner().transform.spec_with_position(position),
                ..self.spec_inner()
            }),
    {
        let mut s = self;
        s.inner.transform.set_position(position);
        Ok(s)
    }

    pub fn set_rotation(self, rotation: Vec3) -> (r: Result<ObjectBuilder, &'static str>)
        ensures
            r matches Ok(b) && b.spec_inner() == (Cube {
                transform: self.spec_inner().transform.spec_with_rotation(rotation),
                ..self.spec_inner()
            }),
    {
        let mut s = self;
        s.inner.transform.set_rotation(rotation);
        Ok(s)
    }

    pub fn set_scale(self, scaling: Vec3) -> (r: Result<ObjectBuilder, &'static str>)
        ensures
            r matches Ok(b) && b.spec_inner() == (Cube {
                transform: self.spec_inner().transform.spec_with_scale(scaling),
                ..self.spec_inner()
            }),
    {
        let mut s = self;
        s.inner.transform.set_scale(scaling);
        Ok(s)
    }
}

impl Builder<Cube> for ObjectBuilder {
    closed spec fn spec_inner(&self) -> Cube {
        self.inner
    }

    fn get_inner(&self) -> (r: &Cube) {
        &self.inner
    }

    fn get_inner_mut(&mut self) -> (r: &mut Cube) {
        &mut self.inner
    }

    fn build(self) -> (r: Result<Cube, &'static str>) {
        Ok(self.inner)
    }
}

impl Default for ObjectBuilder {
    /// Starts from the default cube: default transform, no shader, no
    /// controllers.
    fn default() -> (b: ObjectBuilder)
        ensures
            b.spec_inner().transform == spec_default_transform(),
            b.spec_inner().shader == (Shader { program: None }),
            b.spec_inner().controllers@.len() == 0,
            b.spec_inner().mesh == crate::cube::CUBE_MESH,
    {
        ObjectBuilder { inner: Cube::default() }
    }
}

/// A fluent constructor for a camera.
pub struct CameraBuilder {
    inner: Camera,
}

impl CameraBuilder {
    pub fn set_fov(self, fov: Fixed) -> (r: Result<CameraBuilder, &'static str>)
        ensures
            r matches Ok(b) && b.spec_inner() == crate::camera::spec_camera_with_fov(
                self.spec_inner(),
                fov,
            ),
    {
        let mut s = self;
        s.inner.set_fov(fov);
        Ok(s)
    }

    pub fn set_near(self, near: Fixed) -> (r: Result<CameraBuilder, &'static str>)
        ensures
            r matches Ok(b) && b.spec_inner() == crate::camera::spec_camera_with_near(
                self.spec_inner(),
                near,
            ),
    {
        let mut s = self;
        s.inner.set_near(near);
        Ok(s)
    }

    pub fn set_far(self, far: Fixed) -> (r: Result<CameraBuilder, &'static str>)
        ensures
            r matches Ok(b) && b.spec_inner() == crate::camera::spec_camera_with_far(
                self.spec_inner(),
                far,
            ),
    {
        let mut s = self;
        s.inner.set_far(far);
        Ok(s)
    }

    pub fn set_viewport(self, viewport: Viewport) -> (r: Result<CameraBuilder, &'static str>)
        ensures
            r matches Ok(b) && b.spec_inner() == (Camera { viewport, ..self.spec_inner() }),
    {
        let mut s = self;
        s.inner.set_viewport(viewport);
        Ok(s)
    }

    pub fn set_position(self, position: Vec3) -> (r: Result<CameraBuilder, &'static str>)
        ensures
            r matches Ok(b) && b.spec_inner() == (Camera {
                transform: self.spec_inner().transform.spec_with_position(position),
                view_dirty: true,
                ..self.spec_inner()
            }),
    {
        let mut s = self;
        s.inner.set_position(position);
        Ok(s)
    }

    pub fn set_rotation(self, rotation: Vec3) -> (r: Result<CameraBuilder, &'static str>)
        ensures
            r matches Ok(b) && b.spec_inner() == (Camera {
                transform: self.spec_inner().transform.spec_with_rotation(rotation),
                view_dirty: true,
                ..self.spec_inner()
            }),
    {
        let mut s = self;
        s.inner.set_rotation(rotation);
        Ok(s)
    }
}

impl Builder<Camera> for CameraBuilder {
    closed spec fn spec_inner(&self) -> Camera {
        self.inner
    }

    fn get_inner(&self) -> (r: &Camera) {
        &self.inner
    }

    fn get_inner_mut(&mut self) -> (r: &mut Camera) {
        &mut self.inner
    }

    fn build(self) -> (r: Result<Camera, &'static str>) {
        Ok(self.inner)
    }
}

impl Default for CameraBuilder {
    /// Starts from the default camera.
    fn default() -> (b: CameraBuilder)
        ensures
            b.spec_inner().transform == spec_default_transform(),
            b.spec_inner().viewport == (Viewport {
                x: 0,
                y: 0,
                width: crate::fixed::UNIT,
                height: crate::fixed::UNIT,
            }),
            b.spec_inner().fov == 30_000_000,
            b.spec_inner().near == 10_000,
            b.spec_inner().far == 1_000_000_000,
            b.spec_inner().aspect == 0,
            b.spec_inner().view_dirty,
            b.spec_inner().projection_dirty,
            b.spec_inner().controllers@.len() == 0,
    {
        CameraBuilder { inner: Camera::default() }
    }
}

/// A fluent constructor for a scene.
pub struct SceneBuilder {
    inner: Scene,
}

impl Builder<Scene> for SceneBuilder {
    closed spec fn spec_inner(&self) -> Scene {
        self.inner
    }

    fn get_inner(&self) -> (r: &Scene) {
        &self.inner
    }

    fn get_inner_mut(&mut self) -> (r: &mut Scene) {
        &mut self.inner
    }

    fn build(self) -> (r: Result<Scene, &'static str>) {
        Ok(self.inner)
    }
}

impl Default for SceneBuilder {
    /// Starts from the empty scene.
    fn default() -> (b: SceneBuilder)
        ensures
            b.spec_inner().objects@.len() == 0,
            b.spec_inner().cameras@.len() == 0,
            b.spec_inner().allocated@.len() == 0,
    {
        SceneBuilder { inner: Scene::default() }
    }
}

/// A fluent constructor for an engine.
pub struct EngineBuilder {
    inner: Engine,
}

impl Builder<Engine> for EngineBuilder {
    closed spec fn spec_inner(&self) -> Engine {
        self.inner
    }

    fn get_inner(&self) -> (r: &Engine) {
        &self.inner
    }

    fn get_inner_mut(&mut self) -> (r: &mut Engine) {
        &mut self.inner
    }

    fn build(self) -> (r: Result<Engine, &'static str>) {
        Ok(self.inner)
    }
}

impl Default for EngineBuilder {
    /// Starts from the empty engine.
    fn default() -> (b: EngineBuilder)
        ensures
            b.spec_inner().scenes@.len() == 0,
            b.spec_inner().scene_index == 0,
            b.spec_inner().previous_time == 0,
    {
        EngineBuilder { inner: Engine::default() }
    }
}

/// A builder chain keeps exactly what was set and the defaults elsewhere:
/// starting from the default, setting a position and a scale yields a
/// transform reporting exactly that position and scale, the default
/// rotation, and a cache marked for recomputation.
pub proof fn lemma_builder_round_trip(p: Vec3, s: Vec3)
    ensures
        spec_default_transform().spec_with_position(p).spec_with_scale(s).position == p,
        spec_default_transform().spec_with_position(p).spec_with_scale(s).scale == s,
        spec_default_transform().spec_with_position(p).spec_with_scale(s).rotation == (Vec3 {
            x: 0,
            y: 0,
            z: 0,
        }),
        spec_default_transform().spec_with_position(p).spec_with_scale(s).matrix_update,
        spec_default_transform().position == (Vec3 { x: 0, y: 0, z: 0 }),
        spec_default_transform().scale == (Vec3 {
            x: crate::fixed::UNIT,
            y: crate::fixed::UNIT,
            z: crate::fixed::UNIT,
        }),
{
}

} // verus!
