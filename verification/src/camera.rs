//! The camera entity: view and projection matrices with independent caches,
//! and the viewport it renders into.
//!
//! The view matrix goes stale only when position or rotation change; the
//! projection matrix only when field of view, clip planes, aspect or canvas
//! size change. The view matrix is the inverse camera transform, rotating
//! by `(180 - pitch, yaw, roll)` and then translating by the negated
//! position: the asymmetric pitch convention is a deliberate compatibility
//! choice. Viewport components in `(0, 1]` are fractions of the canvas;
//! anything else is absolute pixels.
use vstd::prelude::*;

use crate::component::{HasComponent, HasComponents};
use crate::controller::{Controller, HasController, HasControllers};
use crate::fixed::{mul_f, spec_div_trunc, spec_mul, spec_neg, neg_f, Fixed, DEG_180, UNIT};
use crate::io::Input;
use crate::mat::{
    identity, perspective, rotate, spec_identity, spec_perspective, spec_rotate, spec_translate,
    spec_zero_mat, translate, zero_mat, Mat4, Vec3,
};
use crate::transform::{spec_default_transform, Transform};

verus! {

/// A viewport request: each component is a canvas fraction when in
/// `(0, 1]`, absolute pixels otherwise.
#[derive(Clone, Copy, Debug, PartialEq, Eq, Structural)]
pub struct Viewport {
    pub x: Fixed,
    pub y: Fixed,
    pub width: Fixed,
    pub height: Fixed,
}

/// A resolved viewport: the pixel rectangle handed to the backend.
#[derive(Clone, Copy, Debug, PartialEq, Eq, Structural)]
pub struct PixelRect {
    pub x: i32,
    pub y: i32,
    pub width: i32,
    pub height: i32,
}

/// A controller attached to a camera.
#[derive(Clone, Copy, Debug)]
pub enum CameraControllerKind {
    Fps(crate::game::FPSController),
    MouseLook(crate::game::MouseController),
    Drag(crate::game::CameraController),
}

/// The camera state after one attached controller ran.
pub open spec fn spec_apply_camera_controller(
    c: CameraControllerKind,
    camera: Camera,
    dt: Fixed,
    input: Input,
) -> Camera {
    match c {
        CameraControllerKind::Fps(f) => crate::game::spec_fps_applied(camera, dt, input),
        CameraControllerKind::MouseLook(m) => crate::game::spec_mouse_look_applied(
            camera,
            dt,
            input,
        ),
        CameraControllerKind::Drag(d) => crate::game::spec_drag_applied(camera, dt, input),
    }
}

/// The camera state after a list of controllers ran in order.
pub open spec fn spec_apply_camera_controllers(
    camera: Camera,
    cs: Seq<CameraControllerKind>,
    dt: Fixed,
    input: Input,
) -> Camera
    decreases cs.len(),
{
    if cs.len() <= 0 {
        camera
    } else {
        spec_apply_camera_controllers(
            spec_apply_camera_controller(cs[0], camera, dt, input),
            cs.skip(1),
            dt,
            input,
        )
    }
}

fn apply_camera_controller(c: &CameraControllerKind, camera: &mut Camera, dt: Fixed, input: &Input)
    requires
        dt != 0,
    ensures
        *final(camera) == spec_apply_camera_controller(*c, *old(camera), dt, *input),
{
    match c {
        CameraControllerKind::Fps(f) => f.update(camera, dt, input),
        CameraControllerKind::MouseLook(m) => m.update(camera, dt, input),
        CameraControllerKind::Drag(d) => d.update(camera, dt, input),
    }
}

/// The first first-person controller in a list.
pub open spec fn spec_first_fps(cs: Seq<CameraControllerKind>) -> Option<
    crate::game::FPSController,
>
    decreases cs.len(),
{
    if cs.len() <= 0 {
        None
    } else {
        match cs[0] {
            CameraControllerKind::Fps(f) => Some(f),
            _ => spec_first_fps(cs.skip(1)),
        }
    }
}

/// The first mouse-look controller in a list.
pub open spec fn spec_first_mouse_look(cs: Seq<CameraControllerKind>) -> Option<
    crate::game::MouseController,
>
    decreases cs.len(),
{
    if cs.len() <= 0 {
        None
    } else {
        match cs[0] {
            CameraControllerKind::MouseLook(m) => Some(m),
            _ => spec_first_mouse_look(cs.skip(1)),
        }
    }
}

/// The first drag-look controller in a list.
pub open spec fn spec_first_drag(cs: Seq<CameraControllerKind>) -> Option<
    crate::game::CameraController,
>
    decreases cs.len(),
{
    if cs.len() <= 0 {
        None
    } else {
        match cs[0] {
            CameraControllerKind::Drag(d) => Some(d),
            _ => spec_first_drag(cs.skip(1)),
        }
    }
}

/// The view matrix: rotate by `(180 - pitch, yaw, roll)`, then translate by
/// the negated position.
pub open spec fn spec_view_matrix(position: Vec3, rotation: Vec3) -> Mat4 {
    spec_translate(
        spec_rotate(
            spec_identity(),
            Vec3 {
                x: crate::fixed::spec_sub(DEG_180, rotation.x),
                y: rotation.y,
                z: rotation.z,
            },
        ),
        Vec3 { x: spec_neg(position.x), y: spec_neg(position.y), z: spec_neg(position.z) },
    )
}

/// One viewport component against one canvas dimension: scaled when it is a
/// fraction in `(0, 1]`, absolute pixels when it is zero or less, or above
/// one.
pub open spec fn spec_resolve_component(v: Fixed, max: u32) -> Fixed {
    if 0 < v <= UNIT {
        spec_mul((max * UNIT) as i64, v)
    } else {
        v
    }
}

/// A fixed-point pixel count truncated into an `i32`.
pub open spec fn spec_to_pixel(v: Fixed) -> i32 {
    let w = spec_div_trunc(v as int, UNIT as int);
    if w > i32::MAX as int {
        i32::MAX
    } else if w < i32::MIN as int {
        i32::MIN
    } else {
        w as i32
    }
}

/// The pixel rectangle of a viewport against a canvas.
pub open spec fn spec_resolve_viewport(v: Viewport, max_width: u32, max_height: u32) -> PixelRect {
    PixelRect {
        x: spec_to_pixel(spec_resolve_component(v.x, max_width)),
        y: spec_to_pixel(spec_resolve_component(v.y, max_height)),
        width: spec_to_pixel(spec_resolve_component(v.width, max_width)),
        height: spec_to_pixel(spec_resolve_component(v.height, max_height)),
    }
}

fn resolve_component(v: Fixed, max: u32) -> (r: Fixed)
    ensures
        r == spec_resolve_component(v, max),
{
    if 0 < v && v <= UNIT {
        mul_f((max as i64) * UNIT, v)
    } else {
        v
    }
}

fn to_pixel(v: Fixed) -> (r: i32)
    ensures
        r == spec_to_pixel(v),
{
    let w = crate::fixed::whole_units(v);
    if w > i32::MAX as i64 {
        i32::MAX
    } else if w < i32::MIN as i64 {
        i32::MIN
    } else {
        w as i32
    }
}

/// A camera after its component tick: the transform's cache refreshed.
pub open spec fn spec_camera_components_updated(c: Camera, dt: Fixed) -> Camera {
    Camera { transform: c.transform.spec_refreshed(), ..c }
}

/// A camera with a new field of view; the projection cache goes stale only
/// on a real change.
pub open spec fn spec_camera_with_fov(c: Camera, fov: Fixed) -> Camera {
    Camera { fov, projection_dirty: c.projection_dirty || fov != c.fov, ..c }
}

/// A camera with a new near plane; the projection cache goes stale only on
/// a real change.
pub open spec fn spec_camera_with_near(c: Camera, near: Fixed) -> Camera {
    Camera { near, projection_dirty: c.projection_dirty || near != c.near, ..c }
}

/// A camera with a new far plane; the projection cache goes stale only on a
/// real change.
pub open spec fn spec_camera_with_far(c: Camera, far: Fixed) -> Camera {
    Camera { far, projection_dirty: c.projection_dirty || far != c.far, ..c }
}

/// A camera with a new aspect ratio; the projection cache goes stale only
/// on a real change.
pub open spec fn spec_camera_with_aspect(c: Camera, aspect: Fixed) -> Camera {
    Camera { aspect, projection_dirty: c.projection_dirty || aspect != c.aspect, ..c }
}

/// A camera with a new canvas size; the projection cache goes stale only on
/// a real change.
pub open spec fn spec_camera_with_canvas(c: Camera, width: u32, height: u32) -> Camera {
    Camera {
        max_width: width,
        max_height: height,
        projection_dirty: c.projection_dirty || width != c.max_width || height != c.max_height,
        ..c
    }
}

/// A camera as the render pass leaves it: canvas size recorded, then the
/// view and projection caches brought up to date.
pub open spec fn spec_camera_prepared(c: Camera, width: u32, height: u32) -> Camera {
    spec_camera_with_canvas(c, width, height).spec_view_refreshed().spec_projection_refreshed()
}

/// The two caches are independent: changing the field of view never changes
/// what `get_camera_matrix` returns, and moving the camera never changes
/// what `get_projection_matrix` returns.
pub proof fn lemma_view_projection_independent(c: Camera, fov: Fixed, position: Vec3)
    ensures
        spec_camera_with_fov(c, fov).spec_view_refreshed().camera_matrix
            == c.spec_view_refreshed().camera_matrix,
        (Camera {
            transform: c.transform.spec_with_position(position),
            view_dirty: true,
            ..c
        }).spec_projection_refreshed().projection_matrix
            == c.spec_projection_refreshed().projection_matrix,
{
}

/// A camera: inverse-transform view state, projection state, the two
/// matrix caches, and the attached controllers.
#[derive(Clone, Debug)]
pub struct Camera {
    pub transform: Transform,
    pub viewport: Viewport,
    pub fov: Fixed,
    pub near: Fixed,
    pub far: Fixed,
    pub aspect: Fixed,
    pub max_width: u32,
    pub max_height: u32,
    pub camera_matrix: Mat4,
    pub projection_matrix: Mat4,
    pub view_dirty: bool,
    pub projection_dirty: bool,
    pub controllers: Vec<CameraControllerKind>,
}

impl Camera {
    /// The camera with its view cache brought up to date.
    pub open spec fn spec_view_refreshed(self) -> Camera {
        if self.view_dirty {
            Camera {
                camera_matrix: spec_view_matrix(self.transform.position, self.transform.rotation),
                view_dirty: false,
                ..self
            }
        } else {
            self
        }
    }

    /// The camera with its projection cache brought up to date.
    pub open spec fn spec_projection_refreshed(self) -> Camera {
        if self.projection_dirty {
            Camera {
                projection_matrix: spec_perspective(self.fov, self.aspect, self.near, self.far),
                projection_dirty: false,
                ..self
            }
        } else {
            self
        }
    }

    /// The cached view matrix, recomputed first when position or rotation
    /// changed since the last read.
    pub fn get_camera_matrix(&mut self) -> (m: Mat4)
        ensures
            *final(self) == old(self).spec_view_refreshed(),
            m == old(self).spec_view_refreshed().camera_matrix,
    {
        if self.view_dirty {
            self.view_dirty = false;
            self.camera_matrix = self.calculate_camera_matrix();
        }
        self.camera_matrix
    }

    fn calculate_camera_matrix(&self) -> (m: Mat4)
        ensures
            m == spec_view_matrix(self.transform.position, self.transform.rotation),
    {
        let base = identity();
        let angles = Vec3 {
            x: crate::fixed::sub_f(DEG_180, self.transform.rotation.x),
            y: self.transform.rotation.y,
            z: self.transform.rotation.z,
        };
        let rotated = rotate(&base, &angles);
        let shift = Vec3 {
            x: neg_f(self.transform.position.x),
            y: neg_f(self.transform.position.y),
            z: neg_f(self.transform.position.z),
        };
        translate(&rotated, &shift)
    }

    /// The cached projection matrix, recomputed first when any projection
    /// parameter changed since the last read.
    pub fn get_projection_matrix(&mut self) -> (m: Mat4)
        ensures
            *final(self) == old(self).spec_projection_refreshed(),
            m == old(self).spec_projection_refreshed().projection_matrix,
    {
        if self.projection_dirty {
            self.projection_dirty = false;
            self.projection_matrix = perspective(self.fov, self.aspect, self.near, self.far);
        }
        self.projection_matrix
    }

    /// Changes the field of view; the projection cache goes stale only on a
    /// real change.
    pub fn set_fov(&mut self, fov: Fixed)
        ensures
            *final(self) == spec_camera_with_fov(*old(self), fov),
    {
        if self.fov != fov {
            self.projection_dirty = true;
        }
        self.fov = fov;
    }

    pub fn get_fov(&self) -> (r: Fixed)
        ensures
            r == self.fov,
    {
        self.fov
    }

    pub fn set_aspect(&mut self, aspect: Fixed)
        ensures
            *final(self) == spec_camera_with_aspect(*old(self), aspect),
    {
        if self.aspect != aspect {
            self.projection_dirty = true;
        }
        self.aspect = aspect;
    }

    pub fn get_aspect(&self) -> (r: Fixed)
        ensures
            r == self.aspect,
    {
        self.aspect
    }

    pub fn set_near(&mut self, near: Fixed)
        ensures
            *final(self) == spec_camera_with_near(*old(self), near),
    {
        if self.near != near {
            self.projection_dirty = true;
        }
        self.near = near;
    }

    pub fn get_near(&self) -> (r: Fixed)
        ensures
            r == self.near,
    {
        self.near
    }

    pub fn set_far(&mut self, far: Fixed)
        ensures
            *final(self) == spec_camera_with_far(*old(self), far),
    {
        if self.far != far {
            self.projection_dirty = true;
        }
        self.far = far;
    }

    pub fn get_far(&self) -> (r: Fixed)
        ensures
            r == self.far,
    {
        self.far
    }

    /// Changes the viewport request; neither cache depends on it.
    pub fn set_viewport(&mut self, viewport: Viewport)
        ensures
            *final(self) == (Camera { viewport, ..*old(self) }),
    {
        self.viewport = viewport;
    }

    pub fn get_viewport(&self) -> (r: Viewport)
        ensures
            r == self.viewport,
    {
        self.viewport
    }

    /// Records the canvas size; the projection cache goes stale only when
    /// the size actually changed.
    pub fn set_canvas_max(&mut self, width: u32, height: u32)
        ensures
            *final(self) == spec_camera_with_canvas(*old(self), width, height),
    {
        if self.max_width != width || self.max_height != height {
            self.projection_dirty = true;
        }
        self.max_width = width;
        self.max_height = height;
    }

    /// The pixel rectangle this camera renders into on the given canvas.
    pub fn attach_viewport(&self, max_width: u32, max_height: u32) -> (r: PixelRect)
        ensures
            r == spec_resolve_viewport(self.viewport, max_width, max_height),
    {
        PixelRect {
            x: to_pixel(resolve_component(self.viewport.x, max_width)),
            y: to_pixel(resolve_component(self.viewport.y, max_height)),
            width: to_pixel(resolve_component(self.viewport.width, max_width)),
            height: to_pixel(resolve_component(self.viewport.height, max_height)),
        }
    }

    /// Moves the camera; the view cache goes stale.
    pub fn set_position(&mut self, position: Vec3)
        ensures
            *final(self) == (Camera {
                transform: old(self).transform.spec_with_position(position),
                view_dirty: true,
                ..*old(self)
            }),
    {
        self.view_dirty = true;
        self.transform.set_position(position);
    }

    pub fn get_position(&self) -> (p: &Vec3)
        ensures
            *p == self.transform.position,
    {
        &self.transform.position
    }

    /// Turns the camera, folding the angles into `[0, 360)`; the view cache
    /// goes stale.
    pub fn set_rotation(&mut self, rotation: Vec3)
        ensures
            *final(self) == (Camera {
                transform: old(self).transform.spec_with_rotation(rotation),
                view_dirty: true,
                ..*old(self)
            }),
    {
        self.view_dirty = true;
        self.transform.set_rotation(rotation);
    }

    pub fn get_rotation(&self) -> (r: &Vec3)
        ensures
            *r == self.transform.rotation,
    {
        &self.transform.rotation
    }

    /// A camera has no scale: the request is ignored.
    pub fn set_scale(&mut self, scaling: Vec3)
        ensures
            *final(self) == *old(self),
    {
    }

    pub fn get_scale(&self) -> (s: &Vec3)
        ensures
            *s == self.transform.scale,
    {
        &self.transform.scale
    }
}

impl Default for Camera {
    /// A camera at the origin: full-canvas viewport, a 30-degree field of
    /// view, near and far planes at `0.01` and `1000`, an aspect of zero
    /// until a canvas size arrives, and both caches stale.
    fn default() -> (c: Camera)
        ensures
            c.transform == spec_default_transform(),
            c.viewport == (Viewport { x: 0, y: 0, width: UNIT, height: UNIT }),
            c.fov == 30_000_000,
            c.near == 10_000,
            c.far == 1_000_000_000,
            c.aspect == 0,
            c.max_width == 1920,
            c.max_height == 1080,
            c.camera_matrix == spec_zero_mat(),
            c.projection_matrix == spec_zero_mat(),
            c.view_dirty,
            c.projection_dirty,
            c.controllers@ == Seq::<CameraControllerKind>::empty(),
    {
        Camera {
            transform: Transform::default(),
            viewport: Viewport { x: 0, y: 0, width: UNIT, height: UNIT },
            fov: 30_000_000,
            near: 10_000,
            far: 1_000_000_000,
            aspect: 0,
            max_width: 1920,
            max_height: 1080,
            camera_matrix: zero_mat(),
            projection_matrix: zero_mat(),
            view_dirty: true,
            projection_dirty: true,
            controllers: Vec::new(),
        }
    }
}

impl HasComponents for Camera {
    /// The component tick refreshes the transform's own matrix cache; the
    /// camera's view and projection caches are driven by the render pass.
    open spec fn spec_components_updated(pre: Camera, dt: Fixed, post: Camera) -> bool {
        post == spec_camera_components_updated(pre, dt)
    }

    fn update_components(&mut self, dt: Fixed) {
        self.transform.update(dt);
    }
}

impl HasControllers for Camera {
    /// The controller pass folds every attached controller over the
    /// camera, in attachment order.
    open spec fn spec_controllers_updated(
        pre: Camera,
        dt: Fixed,
        input: Input,
        post: Camera,
    ) -> bool {
        post == spec_apply_camera_controllers(pre, pre.controllers@, dt, input)
    }

    fn update_controllers(&mut self, dt: Fixed, input: &Input) {
        let ghost pre = *self;
        let n = self.controllers.len();
        let mut i: usize = 0;
        proof {
            assert(pre.controllers@.skip(0) =~= pre.controllers@);
        }
        while i < n
            invariant
                dt != 0,
                n == pre.controllers@.len(),
                i <= n,
                self.controllers@ == pre.controllers@,
                spec_apply_camera_controllers(*self, pre.controllers@.skip(i as int), dt, *input)
                    == spec_apply_camera_controllers(pre, pre.controllers@, dt, *input),
            decreases n - i,
        {
            let c: CameraControllerKind = self.controllers[i];
            proof {
                assert(pre.controllers@.skip(i as int)[0] == pre.controllers@[i as int]);
                assert(pre.controllers@.skip(i as int).skip(1) =~= pre.controllers@.skip(
                    i as int + 1,
                ));
            }
            apply_camera_controller(&c, self, dt, input);
            i = i + 1;
        }
    }
}

impl HasComponent<Transform> for Camera {
    open spec fn spec_component(&self) -> Option<Transform> {
        Some(self.transform)
    }

    /// Handing out the transform counts as a potential move or turn: the
    /// view cache goes stale.
    open spec fn spec_with_component(self, component: Transform) -> Camera {
        Camera { transform: component, view_dirty: true, ..self }
    }

    proof fn lemma_with_component(self, component: Transform) {
    }

    fn attach_component(&mut self, component: Transform) {
        self.view_dirty = true;
        self.transform = component;
    }

    fn get_component(&self) -> (r: Result<&Transform, &'static str>) {
        Ok(&self.transform)
    }

    fn get_component_mut(&mut self) -> (r: Result<&mut Transform, &'static str>) {
        self.view_dirty = true;
        Ok(&mut self.transform)
    }
}

impl HasController<Camera, crate::game::FPSController> for Camera {
    open spec fn spec_controller(&self) -> Option<crate::game::FPSController> {
        spec_first_fps(self.controllers@)
    }

    /// Attachment appends to the controller list and changes nothing else.
    open spec fn spec_controller_attached(
        pre: Camera,
        controller: crate::game::FPSController,
        post: Camera,
    ) -> bool {
        post == (Camera {
            controllers: post.controllers,
            ..pre
        }) && post.controllers@ == pre.controllers@.push(CameraControllerKind::Fps(controller))
    }

    fn attach_controller(&mut self, controller: crate::game::FPSController) {
        self.controllers.push(CameraControllerKind::Fps(controller));
    }

    fn get_controller(&self) -> (r: &crate::game::FPSController) {
        let n = self.controllers.len();
        let mut i: usize = 0;
        proof {
            assert(self.controllers@.skip(0) =~= self.controllers@);
        }
        while i < n
            invariant
                n == self.controllers@.len(),
                i <= n,
                spec_first_fps(self.controllers@.skip(i as int)) == spec_first_fps(
                    self.controllers@,
                ),
                spec_first_fps(self.controllers@) is Some,
            decreases n - i,
        {
            proof {
                assert(self.controllers@.skip(i as int)[0] == self.controllers@[i as int]);
                assert(self.controllers@.skip(i as int).skip(1) =~= self.controllers@.skip(
                    i as int + 1,
                ));
            }
            match &self.controllers[i] {
                CameraControllerKind::Fps(f) => {
                    return f;
                },
                _ => {},
            }
            i = i + 1;
        }
        proof {
            assert(self.controllers@.skip(n as int) =~= Seq::<CameraControllerKind>::empty());
        }
        unreached()
    }
}

impl HasController<Camera, crate::game::MouseController> for Camera {
    open spec fn spec_controller(&self) -> Option<crate::game::MouseController> {
        spec_first_mouse_look(self.controllers@)
    }

    /// Attachment appends to the controller list and changes nothing else.
    open spec fn spec_controller_attached(
        pre: Camera,
        controller: crate::game::MouseController,
        post: Camera,
    ) -> bool {
        post == (Camera {
            controllers: post.controllers,
            ..pre
        }) && post.controllers@ == pre.controllers@.push(
            CameraControllerKind::MouseLook(controller),
        )
    }

    fn attach_controller(&mut self, controller: crate::game::MouseController) {
        self.controllers.push(CameraControllerKind::MouseLook(controller));
    }

    fn get_controller(&self) -> (r: &crate::game::MouseController) {
        let n = self.controllers.len();
        let mut i: usize = 0;
        proof {
            assert(self.controllers@.skip(0) =~= self.controllers@);
        }
        while i < n
            invariant
                n == self.controllers@.len(),
                i <= n,
                spec_first_mouse_look(self.controllers@.skip(i as int)) == spec_first_mouse_look(
                    self.controllers@,
                ),
                spec_first_mouse_look(self.controllers@) is Some,
            decreases n - i,
        {
            proof {
                assert(self.controllers@.skip(i as int)[0] == self.controllers@[i as int]);
                assert(self.controllers@.skip(i as int).skip(1) =~= self.controllers@.skip(
                    i as int + 1,
                ));
            }
            match &self.controllers[i] {
                CameraControllerKind::MouseLook(m) => {
                    return m;
                },
                _ => {},
            }
            i = i + 1;
        }
        proof {
            assert(self.controllers@.skip(n as int) =~= Seq::<CameraControllerKind>::empty());
        }
        unreached()
    }
}

impl HasController<Camera, crate::game::CameraController> for Camera {
    open spec fn spec_controller(&self) -> Option<crate::game::CameraController> {
        spec_first_drag(self.controllers@)
    }

    /// Attachment appends to the controller list and changes nothing else.
    open spec fn spec_controller_attached(
        pre: Camera,
        controller: crate::game::CameraController,
        post: Camera,
    ) -> bool {
        post == (Camera {
            controllers: post.controllers,
            ..pre
        }) && post.controllers@ == pre.controllers@.push(CameraControllerKind::Drag(controller))
    }

    fn attach_controller(&mut self, controller: crate::game::CameraController) {
        self.controllers.push(CameraControllerKind::Drag(controller));
    }

    fn get_controller(&self) -> (r: &crate::game::CameraController) {
        let n = self.controllers.len();
        let mut i: usize = 0;
        proof {
            assert(self.controllers@.skip(0) =~= self.controllers@);
        }
        while i < n
            invariant
                n == self.controllers@.len(),
                i <= n,
                spec_first_drag(self.controllers@.skip(i as int)) == spec_first_drag(
                    self.controllers@,
                ),
                spec_first_drag(self.controllers@) is Some,
            decreases n - i,
        {
            proof {
                assert(self.controllers@.skip(i as int)[0] == self.controllers@[i as int]);
                assert(self.controllers@.skip(i as int).skip(1) =~= self.controllers@.skip(
                    i as int + 1,
                ));
            }
            match &self.controllers[i] {
                CameraControllerKind::Drag(d) => {
                    return d;
                },
                _ => {},
            }
            i = i + 1;
        }
        proof {
            assert(self.controllers@.skip(n as int) =~= Seq::<CameraControllerKind>::empty());
        }
        unreached()
    }
}

} // verus!
