//! The engine: the top-level owner of the scenes and the frame driver.
//!
//! The engine owns an ordered list of scenes and an active-scene index,
//! zero by default. Each tick it derives the frame time from the previous
//! timestamp, updates the active scene's components and then its
//! controllers, records the canvas size, and renders the scene into an
//! explicit draw plan for the host to execute. The host invokes `update`
//! once per display refresh, never re-entrantly and never with a repeated
//! timestamp.
use vstd::prelude::*;

use crate::camera::Camera;
use crate::children::Children;
use crate::component::{HasComponent, HasComponents};
use crate::controller::HasControllers;
use crate::cube::{lemma_cube_controllers_keep_shape, spec_cube_components_updated, Cube};
use crate::fixed::{spec_sub, sub_f, Fixed, UNIT};
use crate::io::Input;
use crate::scene::{
    spec_camera_frame, spec_cube_frame, spec_draw_call, RenderPass, Scene,
};

verus! {

/// A whole pixel count as a fixed-point scalar.
pub open spec fn spec_canvas_f(n: u32) -> Fixed {
    (n * UNIT) as i64
}

fn canvas_f(n: u32) -> (r: Fixed)
    ensures
        r == spec_canvas_f(n),
{
    (n as i64) * UNIT
}

/// The top-level owner: the scenes, the active-scene index, and the
/// previous frame's timestamp.
#[derive(Debug)]
pub struct Engine {
    pub scenes: Children<Scene>,
    pub scene_index: usize,
    pub previous_time: Fixed,
}

impl Default for Engine {
    /// No scenes, the first scene active, time zero.
    fn default() -> (e: Engine)
        ensures
            e.scenes@ == Seq::<Scene>::empty(),
            e.scene_index == 0,
            e.previous_time == 0,
    {
        Engine { scenes: Children::new(), scene_index: 0, previous_time: 0 }
    }
}

impl Engine {
    pub fn get_scene_index(&self) -> (i: usize)
        ensures
            i == self.scene_index,
    {
        self.scene_index
    }

    /// Appends a scene; the active index is unchanged.
    pub fn attach_scene(&mut self, scene: Scene)
        ensures
            final(self).scenes@ == old(self).scenes@.push(scene),
            final(self).scene_index == old(self).scene_index,
            final(self).previous_time == old(self).previous_time,
    {
        self.scenes.push(scene);
    }

    /// The active scene; attach one before asking.
    pub fn get_current_scene(&self) -> (s: &Scene)
        requires
            self.scene_index < self.scenes@.len(),
        ensures
            *s == self.scenes@[self.scene_index as int],
    {
        self.scenes.get(self.scene_index)
    }

    /// Mutable access to the active scene.
    pub fn get_current_scene_mut(&mut self) -> (s: &mut Scene)
        requires
            old(self).scene_index < old(self).scenes@.len(),
        ensures
            *s == old(self).scenes@[old(self).scene_index as int],
            final(self).scenes@ == old(self).scenes@.update(
                old(self).scene_index as int,
                *final(s),
            ),
            final(self).scene_index == old(self).scene_index,
            final(self).previous_time == old(self).previous_time,
    {
        self.scenes.get_mut(self.scene_index)
    }

    /// One-time startup: allocates the active scene's mesh buffers and
    /// returns the mesh identities the host must create buffers for.
    pub fn init(&mut self) -> (plan: Vec<u32>)
        requires
            old(self).scene_index < old(self).scenes@.len(),
        ensures
            final(self).scene_index == old(self).scene_index,
            final(self).previous_time == old(self).previous_time,
            final(self).scenes@.len() == old(self).scenes@.len(),
            forall|j: int|
                0 <= j < old(self).scenes@.len() && j != old(self).scene_index
                    ==> final(self).scenes@[j] == old(self).scenes@[j],
            ({
                let s0 = old(self).scenes@[old(self).scene_index as int];
                let s1 = final(self).scenes@[old(self).scene_index as int];
                &&& s1.objects@ == s0.objects@
                &&& s1.cameras@ == s0.cameras@
                &&& s1.allocated@ == s0.allocated@ + plan@
                &&& forall|i: int|
                    0 <= i < s1.objects@.len() ==> s1.allocated@.contains(
                        (#[trigger] s1.objects@[i]).mesh,
                    )
                &&& s0.allocated@.no_duplicates() ==> s1.allocated@.no_duplicates()
            }),
    {
        let scene = self.scenes.get_mut(self.scene_index);
        scene.init()
    }

    /// One frame: compute the frame time from the previous timestamp, tick
    /// the active scene's components, then its controllers, record the
    /// canvas size, and produce the frame's draw plan. Repeating the
    /// previous timestamp is a frame-driver error and is ruled out by
    /// precondition.
    #[verifier::rlimit(60)]
    pub fn update(&mut self, now: Fixed, input: &Input, width: u32, height: u32) -> (passes: Vec<
        RenderPass,
    >)
        requires
            now != old(self).previous_time,
            old(self).scene_index < old(self).scenes@.len(),
            old(self).scenes@[old(self).scene_index as int].spec_renderable(),
        ensures
            final(self).previous_time == now,
            final(self).scene_index == old(self).scene_index,
            final(self).scenes@.len() == old(self).scenes@.len(),
            forall|j: int|
                0 <= j < old(self).scenes@.len() && j != old(self).scene_index
                    ==> final(self).scenes@[j] == old(self).scenes@[j],
            ({
                let dt = spec_sub(now, old(self).previous_time);
                let s0 = old(self).scenes@[old(self).scene_index as int];
                let s1 = final(self).scenes@[old(self).scene_index as int];
                let wf = spec_canvas_f(width);
                let hf = spec_canvas_f(height);
                &&& s1.allocated == s0.allocated
                &&& s1.objects@ == s0.objects@.map_values(
                    |o: Cube| spec_cube_frame(o, dt, *input),
                )
                &&& s1.cameras@ == s0.cameras@.map_values(
                    |c: Camera| spec_camera_frame(c, dt, *input, wf, hf, width, height),
                )
                &&& passes@.len() == s0.cameras@.len()
                &&& forall|ci: int|
                    0 <= ci < passes@.len() ==> (#[trigger] passes@[ci]).viewport
                        == crate::camera::spec_resolve_viewport(
                        spec_camera_frame(
                            s0.cameras@[ci],
                            dt,
                            *input,
                            wf,
                            hf,
                            width,
                            height,
                        ).viewport,
                        width,
                        height,
                    )
                &&& forall|ci: int| 0 <= ci < passes@.len() ==> (#[trigger] passes@[ci]).draws@.len()
                    == s0.objects@.len()
                &&& forall|ci: int, oi: int|
                    0 <= ci < passes@.len() && 0 <= oi < s0.objects@.len()
                        ==> #[trigger] passes@[ci].draws@[oi] == spec_draw_call(
                        spec_cube_frame(s0.objects@[oi], dt, *input),
                        spec_camera_frame(s0.cameras@[ci], dt, *input, wf, hf, width, height),
                    )
            }),
    {
        let ghost s0 = old(self).scenes@[old(self).scene_index as int];
        let dt = sub_f(now, self.previous_time);
        self.previous_time = now;
        let wf = canvas_f(width);
        let hf = canvas_f(height);
        let scene = self.scenes.get_mut(self.scene_index);
        scene.update_components(dt);
        let ghost s1 = *scene;
        scene.update_controllers(dt, input);
        let ghost s2 = *scene;
        scene.set_canvas_dimensions(wf, hf);
        let ghost s3 = *scene;
        proof {
            assert forall|i: int| 0 <= i < s3.objects@.len() implies (
            #[trigger] s3.objects@[i]).shader.program is Some && s3.allocated@.contains(
                s3.objects@[i].mesh,
            ) by {
                assert(s1.objects@[i] == spec_cube_components_updated(s0.objects@[i], dt));
                lemma_cube_controllers_keep_shape(
                    s1.objects@[i],
                    s1.objects@[i].controllers@,
                    dt,
                    *input,
                );
                assert(s3.objects@[i] == s2.objects@[i]);
                assert(s3.objects@[i].shader == s0.objects@[i].shader);
                assert(s3.objects@[i].mesh == s0.objects@[i].mesh);
            }
            assert(s3.spec_renderable());
        }
        let passes = scene.render(width, height);
        proof {
            let frame_obj = |o: Cube| spec_cube_frame(o, dt, *input);
            let frame_cam = |c: Camera|
                spec_camera_frame(c, dt, *input, wf as Fixed, hf as Fixed, width, height);
            assert(final(scene).objects@ =~= s0.objects@.map_values(frame_obj));
            assert(final(scene).cameras@ =~= s0.cameras@.map_values(frame_cam));
        }
        passes
    }
}

impl HasComponents for Engine {
    /// The engine has no components of its own: the tick changes nothing.
    open spec fn spec_components_updated(pre: Engine, dt: Fixed, post: Engine) -> bool {
        post == pre
    }

    fn update_components(&mut self, dt: Fixed) {
    }
}

impl HasControllers for Engine {
    /// The engine has no controllers of its own: the pass changes nothing.
    open spec fn spec_controllers_updated(pre: Engine, dt: Fixed, input: Input, post: Engine) -> bool {
        post == pre
    }

    fn update_controllers(&mut self, dt: Fixed, input: &Input) {
    }
}

impl HasComponent<Children<Scene>> for Engine {
    open spec fn spec_component(&self) -> Option<Children<Scene>> {
        Some(self.scenes)
    }

    open spec fn spec_with_component(self, component: Children<Scene>) -> Engine {
        Engine { scenes: component, ..self }
    }

    proof fn lemma_with_component(self, component: Children<Scene>) {
    }

    fn attach_component(&mut self, component: Children<Scene>) {
        self.scenes = component;
    }

    fn get_component(&self) -> (r: Result<&Children<Scene>, &'static str>) {
        Ok(&self.scenes)
    }

    fn get_component_mut(&mut self) -> (r: Result<&mut Children<Scene>, &'static str>) {
        Ok(&mut self.scenes)
    }
}

} // verus!
