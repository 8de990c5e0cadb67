//! The scene: the ordered cameras and objects of one world, and the
//! per-frame pipeline that turns them into an explicit draw plan.
//!
//! Per frame, components update before controllers, cameras before objects,
//! always in attachment order. Rendering produces one pass per camera, in
//! camera order, each drawing every object in object order against that
//! camera's viewport, which is how split-screen layouts come out of one
//! object list.
//! Backend buffers are owned by the scene's resource cache, keyed by mesh
//! identity, so identical static geometry is allocated once and shared.
use vstd::prelude::*;

use crate::camera::{
    spec_camera_components_updated, spec_camera_prepared, spec_camera_with_aspect,
    spec_apply_camera_controllers, spec_resolve_viewport, Camera, PixelRect,
};
use crate::children::Children;
use crate::component::{HasComponent, HasComponents};
use crate::controller::{HasControllers};
use crate::cube::{spec_apply_cube_controllers, spec_cube_components_updated, Cube};
use crate::fixed::{div_f, spec_q_div, Fixed};
use crate::io::Input;
use crate::mat::{inverse, spec_inverse, spec_transpose, transpose, Mat4};

verus! {

/// Everything the backend needs for one draw: the program and mesh to bind,
/// and the four matrices to upload.
#[derive(Clone, Copy, Debug)]
pub struct DrawCall {
    pub program: u32,
    pub mesh: u32,
    pub world: Mat4,
    pub view: Mat4,
    pub projection: Mat4,
    pub normal: Mat4,
}

/// One camera's pass over the scene: its pixel viewport and one draw per
/// object, in object order.
#[derive(Clone, Debug)]
pub struct RenderPass {
    pub viewport: PixelRect,
    pub draws: Vec<DrawCall>,
}

/// The program handle of a shader known to be attached.
pub open spec fn spec_program_of(c: Cube) -> u32 {
    match c.shader.program {
        Some(p) => p,
        None => 0,
    }
}

/// The draw of one object under one camera: the cached world matrix, the
/// camera's cached view and projection, and the normal matrix as the
/// transpose of the inverse of the world matrix.
pub open spec fn spec_draw_call(object: Cube, camera: Camera) -> DrawCall {
    DrawCall {
        program: spec_program_of(object),
        mesh: object.mesh,
        world: object.transform.matrix,
        view: camera.camera_matrix,
        projection: camera.projection_matrix,
        normal: spec_transpose(spec_inverse(object.transform.matrix)),
    }
}

/// A cube after one whole frame step: components, then controllers.
pub open spec fn spec_cube_frame(c: Cube, dt: Fixed, input: Input) -> Cube {
    let c1 = spec_cube_components_updated(c, dt);
    spec_apply_cube_controllers(c1, c1.controllers@, dt, input)
}

/// A camera after one whole frame step: components, controllers, the new
/// aspect ratio, then the render pass refreshing both caches.
pub open spec fn spec_camera_frame(
    c: Camera,
    dt: Fixed,
    input: Input,
    width_f: Fixed,
    height_f: Fixed,
    width: u32,
    height: u32,
) -> Camera {
    let c1 = spec_camera_components_updated(c, dt);
    let c2 = spec_apply_camera_controllers(c1, c1.controllers@, dt, input);
    let c3 = spec_camera_with_aspect(c2, spec_q_div(width_f, height_f));
    spec_camera_prepared(c3, width, height)
}

/// A frame over a controller-free world mutates nothing: objects keep their
/// pose exactly (their matrix cache settles to the matrix of the built
/// pose), and a fresh camera's view matrix is computed from its built
/// position and rotation once per frame — every object's draw then carries
/// that one cached matrix.
pub proof fn lemma_static_frame(
    o: Cube,
    c: Camera,
    dt: Fixed,
    input: Input,
    wf: Fixed,
    hf: Fixed,
    width: u32,
    height: u32,
)
    requires
        o.controllers@.len() == 0,
        c.controllers@.len() == 0,
        c.view_dirty,
    ensures
        spec_cube_frame(o, dt, input).transform.position == o.transform.position,
        spec_cube_frame(o, dt, input).transform.rotation == o.transform.rotation,
        spec_cube_frame(o, dt, input).transform.scale == o.transform.scale,
        spec_cube_frame(o, dt, input).transform.matrix == (if o.transform.matrix_update {
            crate::transform::spec_local_matrix(
                o.transform.position,
                o.transform.rotation,
                o.transform.scale,
            )
        } else {
            o.transform.matrix
        }),
        !o.transform.matrix_update ==> spec_cube_frame(o, dt, input) == o,
        spec_camera_frame(c, dt, input, wf, hf, width, height).camera_matrix
            == crate::camera::spec_view_matrix(c.transform.position, c.transform.rotation),
        !spec_camera_frame(c, dt, input, wf, hf, width, height).view_dirty,
        forall|x: Cube|
            (#[trigger] spec_draw_call(
                x,
                spec_camera_frame(c, dt, input, wf, hf, width, height),
            )).view == spec_camera_frame(c, dt, input, wf, hf, width, height).camera_matrix,
{
}

/// Whether `id` is the mesh identity of one of the first `bound` objects.
pub open spec fn spec_mesh_of_some_object(objs: Seq<Cube>, bound: int, id: u32) -> bool {
    exists|j: int| 0 <= j < bound && id == (#[trigger] objs[j]).mesh
}

proof fn lemma_mesh_of_some_object_widen(objs: Seq<Cube>, bound: int, wider: int, id: u32)
    requires
        spec_mesh_of_some_object(objs, bound, id),
        bound <= wider,
    ensures
        spec_mesh_of_some_object(objs, wider, id),
{
    let j = choose|j: int| 0 <= j < bound && id == (#[trigger] objs[j]).mesh;
    assert(0 <= j < wider && id == objs[j].mesh);
}

fn contains_id(v: &Vec<u32>, id: u32) -> (r: bool)
    ensures
        r == v@.contains(id),
{
    let n = v.len();
    let mut i: usize = 0;
    while i < n
        invariant
            i <= n,
            n == v@.len(),
            forall|j: int| 0 <= j < i ==> v@[j] != id,
        decreases n - i,
    {
        if v[i] == id {
            return true;
        }
        i = i + 1;
    }
    false
}

/// The world of one frame: objects and cameras in attachment order, and the
/// mesh identities whose backend buffers exist.
#[derive(Debug)]
pub struct Scene {
    pub objects: Children<Cube>,
    pub cameras: Children<Camera>,
    pub allocated: Vec<u32>,
}

impl Scene {
    /// Whether every object can be drawn: a shader attached and its mesh
    /// buffers allocated.
    pub open spec fn spec_renderable(self) -> bool {
        forall|i: int|
            0 <= i < self.objects@.len() ==> (#[trigger] self.objects@[i]).shader.program is Some
                && self.allocated@.contains(self.objects@[i].mesh)
    }

    /// Whether every object can be drawn, so that an unverified host can
    /// test the render precondition before driving a frame.
    pub fn renderable(&self) -> (r: bool)
        ensures
            r == self.spec_renderable(),
    {
        let n = self.objects.len();
        let mut i: usize = 0;
        while i < n
            invariant
                i <= n,
                n == self.objects@.len(),
                forall|j: int|
                    0 <= j < i ==> (#[trigger] self.objects@[j]).shader.program is Some
                        && self.allocated@.contains(self.objects@[j].mesh),
            decreases n - i,
        {
            let object = self.objects.get(i);
            if object.shader.program.is_none() || !contains_id(&self.allocated, object.mesh) {
                proof {
                    assert(!(self.objects@[i as int].shader.program is Some
                        && self.allocated@.contains(self.objects@[i as int].mesh)));
                }
                return false;
            }
            i = i + 1;
        }
        true
    }

    /// Appends an object; it renders after every earlier object.
    pub fn push_object(&mut self, object: Cube)
        ensures
            final(self).objects@ == old(self).objects@.push(object),
            final(self).cameras@ == old(self).cameras@,
            final(self).allocated == old(self).allocated,
    {
        self.objects.push(object);
    }

    /// Appends a camera; its pass renders after every earlier camera's.
    pub fn push_camera(&mut self, camera: Camera)
        ensures
            final(self).cameras@ == old(self).cameras@.push(camera),
            final(self).objects@ == old(self).objects@,
            final(self).allocated == old(self).allocated,
    {
        self.cameras.push(camera);
    }

    /// One-time resource allocation: returns the mesh identities that still
    /// need backend buffers, each exactly once, so that identical geometry
    /// is allocated once and shared among all objects using it.
    pub fn init(&mut self) -> (plan: Vec<u32>)
        ensures
            final(self).objects@ == old(self).objects@,
            final(self).cameras@ == old(self).cameras@,
            final(self).allocated@ == old(self).allocated@ + plan@,
            forall|i: int|
                0 <= i < final(self).objects@.len() ==> final(self).allocated@.contains(
                    (#[trigger] final(self).objects@[i]).mesh,
                ),
            forall|k: int| 0 <= k < plan@.len() ==> !old(self).allocated@.contains(#[trigger] plan@[k]),
            forall|k: int|
                0 <= k < plan@.len() ==> spec_mesh_of_some_object(
                    old(self).objects@,
                    old(self).objects@.len() as int,
                    #[trigger] plan@[k],
                ),
            old(self).allocated@.no_duplicates() ==> final(self).allocated@.no_duplicates(),
    {
        let ghost pre = *self;
        let mut plan: Vec<u32> = Vec::new();
        let n = self.objects.len();
        let mut i: usize = 0;
        proof {
            assert(self.allocated@ =~= pre.allocated@ + plan@);
        }
        while i < n
            invariant
                i <= n,
                n == self.objects@.len(),
                self.objects@ == pre.objects@,
                self.cameras@ == pre.cameras@,
                self.allocated@ == pre.allocated@ + plan@,
                forall|j: int|
                    0 <= j < i ==> self.allocated@.contains(
                        (#[trigger] self.objects@[j]).mesh,
                    ),
                forall|k: int| 0 <= k < plan@.len() ==> !pre.allocated@.contains(#[trigger] plan@[k]),
                forall|k: int|
                    0 <= k < plan@.len() ==> spec_mesh_of_some_object(
                        pre.objects@,
                        i as int,
                        #[trigger] plan@[k],
                    ),
                pre.allocated@.no_duplicates() ==> self.allocated@.no_duplicates(),
            decreases n - i,
        {
            let mesh = self.objects.get(i).mesh;
            let ghost alloc0 = self.allocated@;
            if !contains_id(&self.allocated, mesh) {
                self.allocated.push(mesh);
                plan.push(mesh);
                proof {
                    assert(self.allocated@ =~= pre.allocated@ + plan@);
                    assert forall|j: int| 0 <= j < i implies self.allocated@.contains(
                        (#[trigger] self.objects@[j]).mesh,
                    ) by {
                        let m0 = self.objects@[j].mesh;
                        assert(alloc0.contains(m0));
                        let k = choose|k: int| 0 <= k < alloc0.len() && alloc0[k] == m0;
                        assert(self.allocated@[k] == m0);
                    }
                    if pre.allocated@.no_duplicates() {
                        assert forall|p: int, q: int|
                            0 <= p < self.allocated@.len() && 0 <= q < self.allocated@.len() && p
                                != q implies self.allocated@[p] != self.allocated@[q] by {
                            if p < alloc0.len() && q < alloc0.len() {
                                assert(alloc0[p] != alloc0[q]);
                            } else if p < alloc0.len() {
                                assert(self.allocated@[q] == mesh);
                                if self.allocated@[p] == mesh {
                                    assert(alloc0.contains(mesh));
                                }
                            } else {
                                assert(self.allocated@[p] == mesh);
                                if self.allocated@[q] == mesh {
                                    assert(alloc0.contains(mesh));
                                }
                            }
                        }
                        assert(self.allocated@.no_duplicates());
                    }
                    assert(self.allocated@[self.allocated@.len() - 1] == mesh);
                    assert(self.allocated@.contains(mesh));
                    assert forall|k: int| 0 <= k < plan@.len() implies !pre.allocated@.contains(
                        #[trigger] plan@[k],
                    ) by {
                        if k == plan@.len() - 1 {
                            assert(plan@[k] == mesh);
                            if pre.allocated@.contains(mesh) {
                                let w = choose|w: int|
                                    0 <= w < pre.allocated@.len() && pre.allocated@[w] == mesh;
                                assert(alloc0[w] == mesh);
                                assert(alloc0.contains(mesh));
                            }
                        }
                    }
                }
            } else {
                proof {
                    assert(self.allocated@.contains(mesh));
                }
            }
            proof {
                assert forall|k: int| 0 <= k < plan@.len() implies spec_mesh_of_some_object(
                    pre.objects@,
                    i as int + 1,
                    #[trigger] plan@[k],
                ) by {
                    if k < plan@.len() - 1 || spec_mesh_of_some_object(
                        pre.objects@,
                        i as int,
                        plan@[k],
                    ) {
                        lemma_mesh_of_some_object_widen(
                            pre.objects@,
                            i as int,
                            i as int + 1,
                            plan@[k],
                        );
                    } else {
                        assert(plan@[k] == pre.objects@[i as int].mesh);
                    }
                }
            }
            i = i + 1;
        }
        plan
    }

    /// Records a new canvas size by giving every camera its aspect ratio.
    pub fn set_canvas_dimensions(&mut self, width: Fixed, height: Fixed)
        ensures
            final(self).objects@ == old(self).objects@,
            final(self).allocated == old(self).allocated,
            final(self).cameras@.len() == old(self).cameras@.len(),
            forall|i: int|
                0 <= i < old(self).cameras@.len() ==> final(self).cameras@[i]
                    == spec_camera_with_aspect(
                    old(self).cameras@[i],
                    spec_q_div(width, height),
                ),
    {
        let ghost pre = *self;
        let aspect = div_f(width, height);
        let n = self.cameras.len();
        let mut i: usize = 0;
        while i < n
            invariant
                i <= n,
                n == pre.cameras@.len(),
                self.cameras@.len() == pre.cameras@.len(),
                self.objects@ == pre.objects@,
                self.allocated == pre.allocated,
                aspect == spec_q_div(width, height),
                forall|j: int|
                    0 <= j < i ==> self.cameras@[j] == spec_camera_with_aspect(
                        pre.cameras@[j],
                        spec_q_div(width, height),
                    ),
                forall|j: int| i <= j < n ==> self.cameras@[j] == pre.cameras@[j],
            decreases n - i,
        {
            let camera = self.cameras.get_mut(i);
            camera.set_aspect(aspect);
            i = i + 1;
        }
    }

    /// The frame's draw plan: one pass per camera in camera order, each
    /// drawing every object in object order. Cameras record the canvas size
    /// and refresh their caches first; each camera is thus recomputed at
    /// most once per frame however many objects share it.
    #[verifier::rlimit(60)]
    pub fn render(&mut self, width: u32, height: u32) -> (passes: Vec<RenderPass>)
        requires
            old(self).spec_renderable(),
        ensures
            final(self).objects@ == old(self).objects@,
            final(self).allocated == old(self).allocated,
            final(self).cameras@.len() == old(self).cameras@.len(),
            forall|i: int|
                0 <= i < old(self).cameras@.len() ==> final(self).cameras@[i]
                    == spec_camera_prepared(old(self).cameras@[i], width, height),
            passes@.len() == old(self).cameras@.len(),
            forall|i: int|
                0 <= i < passes@.len() ==> (#[trigger] passes@[i]).viewport
                    == spec_resolve_viewport(old(self).cameras@[i].viewport, width, height),
            forall|i: int| 0 <= i < passes@.len() ==> (#[trigger] passes@[i]).draws@.len()
                == old(self).objects@.len(),
            forall|i: int, j: int|
                0 <= i < passes@.len() && 0 <= j < old(self).objects@.len()
                    ==> #[trigger] passes@[i].draws@[j] == spec_draw_call(
                    old(self).objects@[j],
                    spec_camera_prepared(old(self).cameras@[i], width, height),
                ),
    {
        let ghost pre = *self;
        let cam_count = self.cameras.len();
        let mut ci: usize = 0;
        while ci < cam_count
            invariant
                ci <= cam_count,
                cam_count == pre.cameras@.len(),
                self.cameras@.len() == pre.cameras@.len(),
                self.objects@ == pre.objects@,
                self.allocated == pre.allocated,
                forall|j: int|
                    0 <= j < ci ==> self.cameras@[j] == spec_camera_prepared(
                        pre.cameras@[j],
                        width,
                        height,
                    ),
                forall|j: int| ci <= j < cam_count ==> self.cameras@[j] == pre.cameras@[j],
            decreases cam_count - ci,
        {
            let camera = self.cameras.get_mut(ci);
            camera.set_canvas_max(width, height);
            let _view = camera.get_camera_matrix();
            let _projection = camera.get_projection_matrix();
            ci = ci + 1;
        }
        let obj_count = self.objects.len();
        let mut passes: Vec<RenderPass> = Vec::new();
        let mut pi: usize = 0;
        while pi < cam_count
            invariant
                pi <= cam_count,
                cam_count == pre.cameras@.len(),
                obj_count == pre.objects@.len(),
                self.cameras@.len() == pre.cameras@.len(),
                self.objects@ == pre.objects@,
                self.allocated == pre.allocated,
                pre.spec_renderable(),
                forall|j: int|
                    0 <= j < cam_count ==> self.cameras@[j] == spec_camera_prepared(
                        pre.cameras@[j],
                        width,
                        height,
                    ),
                passes@.len() == pi,
                forall|i: int|
                    0 <= i < pi ==> (#[trigger] passes@[i]).viewport == spec_resolve_viewport(
                        pre.cameras@[i].viewport,
                        width,
                        height,
                    ),
                forall|i: int| 0 <= i < pi ==> (#[trigger] passes@[i]).draws@.len()
                    == pre.objects@.len(),
                forall|i: int, j: int|
                    0 <= i < pi && 0 <= j < obj_count ==> #[trigger] passes@[i].draws@[j]
                        == spec_draw_call(
                        pre.objects@[j],
                        spec_camera_prepared(pre.cameras@[i], width, height),
                    ),
            decreases cam_count - pi,
        {
            let camera = self.cameras.get(pi);
            let viewport = camera.attach_viewport(width, height);
            proof {
                assert(spec_camera_prepared(pre.cameras@[pi as int], width, height).viewport
                    == pre.cameras@[pi as int].viewport);
            }
            let mut draws: Vec<DrawCall> = Vec::new();
            let mut oi: usize = 0;
            while oi < obj_count
                invariant
                    oi <= obj_count,
                    obj_count == pre.objects@.len(),
                    pi < cam_count,
                    cam_count == pre.cameras@.len(),
                    self.cameras@.len() == pre.cameras@.len(),
                    self.objects@ == pre.objects@,
                    pre.spec_renderable(),
                    camera == &spec_camera_prepared(pre.cameras@[pi as int], width, height),
                    draws@.len() == oi,
                    forall|j: int|
                        0 <= j < oi ==> draws@[j] == spec_draw_call(
                            pre.objects@[j],
                            spec_camera_prepared(pre.cameras@[pi as int], width, height),
                        ),
                decreases obj_count - oi,
            {
                let object = self.objects.get(oi);
                let world = object.transform.matrix;
                let normal = transpose(&inverse(&world));
                draws.push(
                    DrawCall {
                        program: object.shader.get_program(),
                        mesh: object.mesh,
                        world,
                        view: camera.camera_matrix,
                        projection: camera.projection_matrix,
                        normal,
                    },
                );
                oi = oi + 1;
            }
            passes.push(RenderPass { viewport, draws });
            pi = pi + 1;
        }
        passes
    }
}

impl Default for Scene {
    /// An empty scene: no objects, no cameras, nothing allocated.
    fn default() -> (s: Scene)
        ensures
            s.objects@ == Seq::<Cube>::empty(),
            s.cameras@ == Seq::<Camera>::empty(),
            s.allocated@ == Seq::<u32>::empty(),
    {
        Scene { objects: Children::new(), cameras: Children::new(), allocated: Vec::new() }
    }
}

impl HasComponents for Scene {
    /// The component tick updates every camera, then every object, each in
    /// attachment order.
    open spec fn spec_components_updated(pre: Scene, dt: Fixed, post: Scene) -> bool {
        &&& post.cameras@ == pre.cameras@.map_values(
            |c: Camera| spec_camera_components_updated(c, dt),
        )
        &&& post.objects@ == pre.objects@.map_values(|o: Cube| spec_cube_components_updated(o, dt))
        &&& post.allocated == pre.allocated
    }

    fn update_components(&mut self, dt: Fixed) {
        let ghost pre = *self;
        let cam_count = self.cameras.len();
        let mut ci: usize = 0;
        while ci < cam_count
            invariant
                ci <= cam_count,
                cam_count == pre.cameras@.len(),
                self.cameras@.len() == pre.cameras@.len(),
                self.objects@ == pre.objects@,
                self.allocated == pre.allocated,
                forall|j: int|
                    0 <= j < ci ==> self.cameras@[j] == spec_camera_components_updated(
                        pre.cameras@[j],
                        dt,
                    ),
                forall|j: int| ci <= j < cam_count ==> self.cameras@[j] == pre.cameras@[j],
            decreases cam_count - ci,
        {
            let camera = self.cameras.get_mut(ci);
            camera.update_components(dt);
            ci = ci + 1;
        }
        let obj_count = self.objects.len();
        let mut oi: usize = 0;
        while oi < obj_count
            invariant
                oi <= obj_count,
                obj_count == pre.objects@.len(),
                self.objects@.len() == pre.objects@.len(),
                self.allocated == pre.allocated,
                self.cameras@.len() == pre.cameras@.len(),
                forall|j: int|
                    0 <= j < cam_count ==> self.cameras@[j] == spec_camera_components_updated(
                        pre.cameras@[j],
                        dt,
                    ),
                forall|j: int|
                    0 <= j < oi ==> self.objects@[j] == spec_cube_components_updated(
                        pre.objects@[j],
                        dt,
                    ),
                forall|j: int| oi <= j < obj_count ==> self.objects@[j] == pre.objects@[j],
            decreases obj_count - oi,
        {
            let object = self.objects.get_mut(oi);
            object.update_components(dt);
            oi = oi + 1;
        }
        proof {
            assert(self.cameras@ =~= pre.cameras@.map_values(
                |c: Camera| spec_camera_components_updated(c, dt),
            ));
            assert(self.objects@ =~= pre.objects@.map_values(
                |o: Cube| spec_cube_components_updated(o, dt),
            ));
        }
    }
}

impl HasControllers for Scene {
    /// The controller pass runs every camera's controllers, then every
    /// object's, each in attachment order.
    open spec fn spec_controllers_updated(pre: Scene, dt: Fixed, input: Input, post: Scene) -> bool {
        &&& post.cameras@ == pre.cameras@.map_values(
            |c: Camera| spec_apply_camera_controllers(c, c.controllers@, dt, input),
        )
        &&& post.objects@ == pre.objects@.map_values(
            |o: Cube| spec_apply_cube_controllers(o, o.controllers@, dt, input),
        )
        &&& post.allocated == pre.allocated
    }

    fn update_controllers(&mut self, dt: Fixed, input: &Input) {
        let ghost pre = *self;
        let cam_count = self.cameras.len();
        let mut ci: usize = 0;
        while ci < cam_count
            invariant
                dt != 0,
                ci <= cam_count,
                cam_count == pre.cameras@.len(),
                self.cameras@.len() == pre.cameras@.len(),
                self.objects@ == pre.objects@,
                self.allocated == pre.allocated,
                forall|j: int|
                    0 <= j < ci ==> self.cameras@[j] == spec_apply_camera_controllers(
                        pre.cameras@[j],
                        (#[trigger] pre.cameras@[j]).controllers@,
                        dt,
                        *input,
                    ),
                forall|j: int| ci <= j < cam_count ==> self.cameras@[j] == pre.cameras@[j],
            decreases cam_count - ci,
        {
            let camera = self.cameras.get_mut(ci);
            camera.update_controllers(dt, input);
            ci = ci + 1;
        }
        let obj_count = self.objects.len();
        let mut oi: usize = 0;
        while oi < obj_count
            invariant
                dt != 0,
                oi <= obj_count,
                obj_count == pre.objects@.len(),
                self.objects@.len() == pre.objects@.len(),
                self.allocated == pre.allocated,
                self.cameras@.len() == pre.cameras@.len(),
                forall|j: int|
                    0 <= j < cam_count ==> self.cameras@[j] == spec_apply_camera_controllers(
                        pre.cameras@[j],
                        (#[trigger] pre.cameras@[j]).controllers@,
                        dt,
                        *input,
                    ),
                forall|j: int|
                    0 <= j < oi ==> self.objects@[j] == spec_apply_cube_controllers(
                        pre.objects@[j],
                        (#[trigger] pre.objects@[j]).controllers@,
                        dt,
                        *input,
                    ),
                forall|j: int| oi <= j < obj_count ==> self.objects@[j] == pre.objects@[j],
            decreases obj_count - oi,
        {
            let object = self.objects.get_mut(oi);
            object.update_controllers(dt, input);
            oi = oi + 1;
        }
        proof {
            assert(self.cameras@ =~= pre.cameras@.map_values(
                |c: Camera| spec_apply_camera_controllers(c, c.controllers@, dt, *input),
            ));
            assert(self.objects@ =~= pre.objects@.map_values(
                |o: Cube| spec_apply_cube_controllers(o, o.controllers@, dt, *input),
            ));
        }
    }
}

impl HasComponent<Children<Cube>> for Scene {
    open spec fn spec_component(&self) -> Option<Children<Cube>> {
        Some(self.objects)
    }

    open spec fn spec_with_component(self, component: Children<Cube>) -> Scene {
        Scene { objects: component, ..self }
    }

    proof fn lemma_with_component(self, component: Children<Cube>) {
    }

    fn attach_component(&mut self, component: Children<Cube>) {
        self.objects = component;
    }

    fn get_component(&self) -> (r: Result<&Children<Cube>, &'static str>) {
        Ok(&self.objects)
    }

    fn get_component_mut(&mut self) -> (r: Result<&mut Children<Cube>, &'static str>) {
        Ok(&mut self.objects)
    }
}

impl HasComponent<Children<Camera>> for Scene {
    open spec fn spec_component(&self) -> Option<Children<Camera>> {
        Some(self.cameras)
    }

    open spec fn spec_with_component(self, component: Children<Camera>) -> Scene {
        Scene { cameras: component, ..self }
    }

    proof fn lemma_with_component(self, component: Children<Camera>) {
    }

    fn attach_component(&mut self, component: Children<Camera>) {
        self.cameras = component;
    }

    fn get_component(&self) -> (r: Result<&Children<Camera>, &'static str>) {
        Ok(&self.cameras)
    }

    fn get_component_mut(&mut self) -> (r: Result<&mut Children<Camera>, &'static str>) {
        Ok(&mut self.cameras)
    }
}

} // verus!
