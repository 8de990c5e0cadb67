//! The cube entity: the renderable object of the runtime.
//!
//! A cube owns a transform, a shader handle and an ordered controller list,
//! and names its static geometry by mesh identity so that a scene can share
//! one set of backend buffers among all cubes. Its shape is fixed at build
//! time; only transform and controller state change afterwards.
use vstd::prelude::*;

use crate::component::{HasComponent, HasComponents};
use crate::controller::{Controller, HasController, HasControllers};
use crate::fixed::Fixed;
use crate::io::Input;
use crate::shader::Shader;
use crate::transform::{spec_default_transform, Transform};

verus! {

/// The mesh identity of the shared cube geometry.
pub const CUBE_MESH: u32 = 1;

/// A controller attached to a cube.
#[derive(Clone, Copy, Debug)]
pub enum CubeController {
    Rotating(crate::game::Rotate),
}

/// The cube state after one attached controller ran.
pub open spec fn spec_apply_cube_controller(
    c: CubeController,
    cube: Cube,
    dt: Fixed,
    input: Input,
) -> Cube {
    match c {
        CubeController::Rotating(r) => crate::game::spec_rotate_applied(r, cube, dt, input),
    }
}

/// The cube state after a list of controllers ran in order.
pub open spec fn spec_apply_cube_controllers(
    cube: Cube,
    cs: Seq<CubeController>,
    dt: Fixed,
    input: Input,
) -> Cube
    decreases cs.len(),
{
    if cs.len() <= 0 {
        cube
    } else {
        spec_apply_cube_controllers(
            spec_apply_cube_controller(cs[0], cube, dt, input),
            cs.skip(1),
            dt,
            input,
        )
    }
}

fn apply_cube_controller(c: &CubeController, cube: &mut Cube, dt: Fixed, input: &Input)
    requires
        dt != 0,
    ensures
        *final(cube) == spec_apply_cube_controller(*c, *old(cube), dt, *input),
{
    match c {
        CubeController::Rotating(r) => r.update(cube, dt, input),
    }
}

/// The first rotation controller in a list.
pub open spec fn spec_first_rotate(cs: Seq<CubeController>) -> Option<crate::game::Rotate>
    decreases cs.len(),
{
    if cs.len() <= 0 {
        None
    } else {
        match cs[0] {
            CubeController::Rotating(r) => Some(r),
        }
    }
}

/// A cube after its component tick: the transform's cache refreshed.
pub open spec fn spec_cube_components_updated(c: Cube, dt: Fixed) -> Cube {
    Cube { transform: c.transform.spec_refreshed(), ..c }
}

/// Controllers only move their parent: whatever controllers run, the
/// cube's shader, mesh identity and controller list stay as built.
pub proof fn lemma_cube_controllers_keep_shape(
    cube: Cube,
    cs: Seq<CubeController>,
    dt: Fixed,
    input: Input,
)
    ensures
        spec_apply_cube_controllers(cube, cs, dt, input).shader == cube.shader,
        spec_apply_cube_controllers(cube, cs, dt, input).mesh == cube.mesh,
        spec_apply_cube_controllers(cube, cs, dt, input).controllers == cube.controllers,
    decreases cs.len(),
{
    if cs.len() > 0 {
        lemma_cube_controllers_keep_shape(
            spec_apply_cube_controller(cs[0], cube, dt, input),
            cs.skip(1),
            dt,
            input,
        );
    }
}

/// A renderable cube.
#[derive(Clone, Debug)]
pub struct Cube {
    pub transform: Transform,
    pub shader: Shader,
    pub controllers: Vec<CubeController>,
    pub mesh: u32,
}

impl Default for Cube {
    /// A unit cube at the origin, with no shader and no controllers.
    fn default() -> (c: Cube)
        ensures
            c.transform == spec_default_transform(),
            c.shader == (Shader { program: None }),
            c.controllers@ == Seq::<CubeController>::empty(),
            c.mesh == CUBE_MESH,
    {
        Cube {
            transform: Transform::default(),
            shader: Shader::default(),
            controllers: Vec::new(),
            mesh: CUBE_MESH,
        }
    }
}

impl HasComponents for Cube {
    /// The component tick refreshes the transform's matrix cache.
    open spec fn spec_components_updated(pre: Cube, dt: Fixed, post: Cube) -> bool {
        post == spec_cube_components_updated(pre, dt)
    }

    fn update_components(&mut self, dt: Fixed) {
        self.transform.update(dt);
    }
}

impl HasControllers for Cube {
    /// The controller pass folds every attached controller over the cube,
    /// in attachment order.
    open spec fn spec_controllers_updated(pre: Cube, dt: Fixed, input: Input, post: Cube) -> bool {
        post == spec_apply_cube_controllers(pre, pre.controllers@, dt, input)
    }

    fn update_controllers(&mut self, dt: Fixed, input: &Input) {
        let ghost pre = *self;
        let n = self.controllers.len();
        let mut i: usize = 0;
        proof {
            assert(pre.controllers@.skip(0) =~= pre.controllers@);
        }
        while i < n
            invariant
                dt != 0,
                n == pre.controllers@.len(),
                i <= n,
                self.controllers@ == pre.controllers@,
                spec_apply_cube_controllers(*self, pre.controllers@.skip(i as int), dt, *input)
                    == spec_apply_cube_controllers(pre, pre.controllers@, dt, *input),
            decreases n - i,
        {
            let c: CubeController = self.controllers[i];
            proof {
                assert(pre.controllers@.skip(i as int)[0] == pre.controllers@[i as int]);
                assert(pre.controllers@.skip(i as int).skip(1) =~= pre.controllers@.skip(
                    i as int + 1,
                ));
            }
            apply_cube_controller(&c, self, dt, input);
            proof {
                assert(self.controllers@ == pre.controllers@) by {
                    match c {
                        CubeController::Rotating(r) => {},
                    }
                }
            }
            i = i + 1;
        }
    }
}

impl HasComponent<Transform> for Cube {
    open spec fn spec_component(&self) -> Option<Transform> {
        Some(self.transform)
    }

    open spec fn spec_with_component(self, component: Transform) -> Cube {
        Cube { transform: component, ..self }
    }

    proof fn lemma_with_component(self, component: Transform) {
    }

    fn attach_component(&mut self, component: Transform) {
        self.transform = component;
    }

    fn get_component(&self) -> (r: Result<&Transform, &'static str>) {
        Ok(&self.transform)
    }

    fn get_component_mut(&mut self) -> (r: Result<&mut Transform, &'static str>) {
        Ok(&mut self.transform)
    }
}

impl HasComponent<Shader> for Cube {
    open spec fn spec_component(&self) -> Option<Shader> {
        Some(self.shader)
    }

    open spec fn spec_with_component(self, component: Shader) -> Cube {
        Cube { shader: component, ..self }
    }

    proof fn lemma_with_component(self, component: Shader) {
    }

    fn attach_component(&mut self, component: Shader) {
        self.shader = component;
    }

    fn get_component(&self) -> (r: Result<&Shader, &'static str>) {
        Ok(&self.shader)
    }

    fn get_component_mut(&mut self) -> (r: Result<&mut Shader, &'static str>) {
        Ok(&mut self.shader)
    }
}

impl HasController<Cube, crate::game::Rotate> for Cube {
    open spec fn spec_controller(&self) -> Option<crate::game::Rotate> {
        spec_first_rotate(self.controllers@)
    }

    /// Attachment appends to the controller list and changes nothing else.
    open spec fn spec_controller_attached(
        pre: Cube,
        controller: crate::game::Rotate,
        post: Cube,
    ) -> bool {
        &&& post.controllers@ == pre.controllers@.push(CubeController::Rotating(controller))
        &&& post.transform == pre.transform
        &&& post.shader == pre.shader
        &&& post.mesh == pre.mesh
    }

    fn attach_controller(&mut self, controller: crate::game::Rotate) {
        self.controllers.push(CubeController::Rotating(controller));
    }

    fn get_controller(&self) -> (r: &crate::game::Rotate) {
        match &self.controllers[0] {
            CubeController::Rotating(r) => r,
        }
    }
}

} // verus!
