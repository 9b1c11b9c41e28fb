//! The secondary (preview) output: an independently-owned rendering
//! context that mirrors the primary scene.  It holds its own copies of
//! every drawable, uploaded against its own device; each frame the pending
//! transform list is applied positionally and the scene is re-rendered —
//! no GPU state is shared with the primary output and no per-frame
//! read-back runs.

use vstd::prelude::*;
use crate::camera::Camera;
use crate::common::Color;
use crate::common::TextureFormat;
use crate::mat4::Mat4;
use crate::material::Material;
use crate::mesh::Mesh;
use crate::numeric::div_bits;
use crate::numeric::f_div;
use crate::numeric::f_of_u32;
use crate::numeric::float_of_u32;
use crate::render_object::RenderObject;
use crate::render_target::RenderTarget;
use crate::scene_renderer::draw_plan_spec;
use crate::scene_renderer::RenderPassPlan;
use crate::scene_renderer::SceneRenderer;
use crate::BITS_ONE;

verus! {

/// Bit pattern of one tenth: the scene clear color channel.
pub const BITS_CLEAR_SCENE: u32 = 0x3DCCCCCD;

/// Bit pattern of one fiftieth: the blit background red and green channels.
pub const BITS_CLEAR_BLIT_RG: u32 = 0x3CA3D70A;

/// Bit pattern of three: the preview camera's x position.
pub const BITS_CAM_X: u32 = 0x40400000;

/// Bit pattern of two: the preview camera's y position.
pub const BITS_CAM_Y: u32 = 0x40000000;

/// Bit pattern of five: the preview camera's z position.
pub const BITS_CAM_Z: u32 = 0x40A00000;

/// The model transforms of a drawable list, in order.
pub open spec fn transforms_of(objects: Seq<RenderObject>) -> Seq<Seq<u32>> {
    objects.map(|i: int, o: RenderObject| o.transform.m@)
}

/// `news` is `olds` with the transform list applied positionally:
/// `ts[i]` replaces the transform of the i-th object (rewriting its model
/// uniform buffer when uploaded, reallocating nothing), objects past the
/// end of `ts` are untouched, and no object is added or removed.
pub open spec fn transforms_applied(
    olds: Seq<RenderObject>,
    news: Seq<RenderObject>,
    ts: Seq<Mat4>,
) -> bool {
    &&& news.len() == olds.len()
    &&& forall|i: int|
        0 <= i < olds.len() ==> #[trigger] news[i] == if i < ts.len() {
            RenderObject {
                transform: ts[i],
                gpu: news[i].gpu,
                ..olds[i]
            }
        } else {
            olds[i]
        }
    &&& forall|i: int|
        0 <= i < olds.len() && i < ts.len() ==> {
            &&& (#[trigger] news[i].gpu is Some <==> olds[i].gpu is Some)
            &&& (olds[i].gpu is Some ==> {
                &&& news[i].gpu->0.vertex_words == olds[i].gpu->0.vertex_words
                &&& news[i].gpu->0.index_words == olds[i].gpu->0.index_words
                &&& news[i].gpu->0.material_words == olds[i].gpu->0.material_words
                &&& news[i].gpu->0.model_words@ == ts[i].m@
            })
        }
}

/// A preview window: its own surface configuration, scene renderer, render
/// target and drawable copies, plus the transform list pending for the
/// next frame.  `is_ready` guards rendering until the scene copies exist.
#[derive(Debug, Clone, PartialEq, Eq)]
pub struct PreviewWindow {
    pub width: u32,
    pub height: u32,
    pub format: TextureFormat,
    pub enabled: bool,
    pub is_ready: bool,
    pub scene_renderer: SceneRenderer,
    pub render_target: RenderTarget,
    pub render_objects: Vec<RenderObject>,
    pub pending_transforms: Vec<Mat4>,
}

impl PreviewWindow {
    /// Every drawable copy is well formed.
    pub open spec fn wf(self) -> bool {
        forall|i: int| 0 <= i < self.render_objects@.len() ==> self.render_objects@[i].wf()
    }

    /// A preview window over its own device and surface.  Not ready to
    /// render until its scene objects are initialized.
    pub fn new(width: u32, height: u32, format: TextureFormat) -> (w: PreviewWindow)
        ensures
            w.width == width,
            w.height == height,
            w.format == format,
            w.enabled,
            !w.is_ready,
            w.scene_renderer.camera.position@ == seq![BITS_CAM_X, BITS_CAM_Y, BITS_CAM_Z],
            w.scene_renderer.camera.target@ == seq![0u32, 0u32, 0u32],
            w.scene_renderer.camera.aspect == div_bits(float_of_u32(width), float_of_u32(height)),
            w.render_target == (RenderTarget {
                width: if width > 0 { width } else { 1 },
                height: if height > 0 { height } else { 1 },
                format,
                generation: 0,
            }),
            w.render_objects@.len() == 0,
            w.pending_transforms@.len() == 0,
            w.wf(),
    {
        let position = [BITS_CAM_X, BITS_CAM_Y, BITS_CAM_Z];
        let target = [0u32, 0u32, 0u32];
        proof {
            assert(position@ =~= seq![BITS_CAM_X, BITS_CAM_Y, BITS_CAM_Z]);
            assert(target@ =~= seq![0u32, 0u32, 0u32]);
        }
        let aspect = f_div(f_of_u32(width), f_of_u32(height));
        let camera = Camera::new(position, target, aspect);
        let rt_width = if width > 0 { width } else { 1 };
        let rt_height = if height > 0 { height } else { 1 };
        PreviewWindow {
            width,
            height,
            format,
            enabled: true,
            is_ready: false,
            scene_renderer: SceneRenderer::new(camera),
            render_target: RenderTarget::new(rt_width, rt_height, format),
            render_objects: Vec::new(),
            pending_transforms: Vec::new(),
        }
    }

    /// Construct this output's own drawables from the given values and
    /// upload them against this output's device; afterwards the window is
    /// ready to render.
    pub fn init_scene_objects(&mut self, data: Vec<(Mesh, Material, Mat4)>)
        requires
            forall|i: int| 0 <= i < data@.len() ==> (#[trigger] data@[i]).0.wf(),
        ensures
            final(self).render_objects@.len() == data@.len(),
            forall|i: int|
                0 <= i < data@.len() ==> {
                    &&& (#[trigger] final(self).render_objects@[i]).mesh == data@[i].0
                    &&& final(self).render_objects@[i].material == data@[i].1
                    &&& final(self).render_objects@[i].transform == data@[i].2
                    &&& final(self).render_objects@[i].loaded()
                    &&& final(self).render_objects@[i].wf()
                },
            final(self).is_ready,
            final(self).wf(),
            final(self).width == old(self).width,
            final(self).height == old(self).height,
            final(self).format == old(self).format,
            final(self).enabled == old(self).enabled,
            final(self).scene_renderer == old(self).scene_renderer,
            final(self).render_target == old(self).render_target,
            final(self).pending_transforms == old(self).pending_transforms,
    {
        let mut objects: Vec<RenderObject> = Vec::new();
        let mut data = data;
        let ghost data_view = data@;
        while data.len() > 0
            invariant
                data_view.len() == objects@.len() + data@.len(),
                data@ =~= data_view.subrange(objects@.len() as int, data_view.len() as int),
                forall|k: int| 0 <= k < data_view.len() ==> (#[trigger] data_view[k]).0.wf(),
                forall|k: int|
                    0 <= k < objects@.len() ==> {
                        &&& (#[trigger] objects@[k]).mesh == data_view[k].0
                        &&& objects@[k].material == data_view[k].1
                        &&& objects@[k].transform == data_view[k].2
                        &&& objects@[k].loaded()
                        &&& objects@[k].wf()
                    },
            decreases data@.len(),
        {
            let item = data.remove(0);
            proof {
                assert(item == data_view[objects@.len() as int]);
            }
            let (mesh, material, transform) = item;
            let mut obj = RenderObject::new(mesh, material, transform);
            obj.upload();
            objects.push(obj);
            proof {
                assert(data@ =~= data_view.subrange(
                    objects@.len() as int,
                    data_view.len() as int,
                ));
            }
        }
        self.render_objects = objects;
        self.is_ready = true;
    }

    /// Store the authoritative transform list; it is applied during the
    /// next `render` call.
    pub fn update_scene(&mut self, transforms: Vec<Mat4>)
        ensures
            *final(self) == (PreviewWindow { pending_transforms: transforms, ..*old(self) }),
    {
        self.pending_transforms = transforms;
    }

    /// Reconfigure the surface to the new size; a zero dimension is
    /// ignored.
    pub fn resize(&mut self, width: u32, height: u32)
        ensures
            width > 0 && height > 0 ==> *final(self) == (PreviewWindow {
                width,
                height,
                ..*old(self)
            }),
            !(width > 0 && height > 0) ==> *final(self) == *old(self),
    {
        if width > 0 && height > 0 {
            self.width = width;
            self.height = height;
        }
    }

    /// Render one preview frame: skipped entirely (no plan, no state
    /// change) while the window is not ready or has no objects; otherwise
    /// the pending transforms are applied positionally, the camera uniform
    /// refreshed, and one render pass planned over this output's own
    /// drawables.  The blit of the render target to the surface follows
    /// the plan.
    pub fn render(&mut self) -> (r: Option<RenderPassPlan>)
        requires
            old(self).wf(),
        ensures
            !old(self).is_ready ==> r is None && *final(self) == *old(self),
            old(self).is_ready && old(self).render_objects@.len() == 0 ==> r is None && *final(self)
                == *old(self),
            old(self).is_ready && old(self).render_objects@.len() > 0 ==> {
                &&& r is Some
                &&& transforms_applied(
                    old(self).render_objects@,
                    final(self).render_objects@,
                    old(self).pending_transforms@,
                )
                &&& final(self).scene_renderer.camera == old(self).scene_renderer.camera
                &&& final(self).scene_renderer.camera_buffer@ == old(
                    self,
                ).scene_renderer.camera.view_projection_spec()
                &&& r->0.draws@ == draw_plan_spec(final(self).render_objects@)
                &&& r->0.clear_color == (Color {
                    r: BITS_CLEAR_SCENE,
                    g: BITS_CLEAR_SCENE,
                    b: BITS_CLEAR_SCENE,
                    a: BITS_ONE,
                })
                &&& r->0.depth_clear == BITS_ONE
                &&& final(self).pending_transforms == old(self).pending_transforms
                &&& final(self).is_ready && final(self).enabled == old(self).enabled
                &&& final(self).width == old(self).width && final(self).height == old(self).height
                &&& final(self).render_target == old(self).render_target
            },
            final(self).wf(),
    {
        if !self.is_ready {
            return None;
        }
        if self.render_objects.len() == 0 {
            return None;
        }
        if self.pending_transforms.len() > 0 {
            let mut i: usize = 0;
            let ghost olds = self.render_objects@;
            let ghost ts = self.pending_transforms@;
            let ghost pre = *self;
            while i < self.pending_transforms.len() && i < self.render_objects.len()
                invariant
                    self.scene_renderer == pre.scene_renderer,
                    self.width == pre.width,
                    self.height == pre.height,
                    self.format == pre.format,
                    self.enabled == pre.enabled,
                    self.is_ready == pre.is_ready,
                    self.render_target == pre.render_target,
                    self.pending_transforms == pre.pending_transforms,
                    self.render_objects@.len() == olds.len(),
                    self.pending_transforms@ == ts,
                    i <= ts.len(),
                    forall|k: int|
                        i <= k < olds.len() ==> #[trigger] self.render_objects@[k] == olds[k],
                    forall|k: int|
                        0 <= k < i && k < olds.len() ==> #[trigger] self.render_objects@[k]
                            == (RenderObject {
                            transform: ts[k],
                            gpu: self.render_objects@[k].gpu,
                            ..olds[k]
                        }),
                    forall|k: int|
                        0 <= k < i && k < olds.len() ==> {
                            &&& ((#[trigger] self.render_objects@[k]).gpu is Some <==> olds[k].gpu
                                is Some)
                            &&& (olds[k].gpu is Some ==> {
                                &&& self.render_objects@[k].gpu->0.vertex_words
                                    == olds[k].gpu->0.vertex_words
                                &&& self.render_objects@[k].gpu->0.index_words
                                    == olds[k].gpu->0.index_words
                                &&& self.render_objects@[k].gpu->0.material_words
                                    == olds[k].gpu->0.material_words
                                &&& self.render_objects@[k].gpu->0.model_words@ == ts[k].m@
                            })
                        },
                    forall|k: int|
                        0 <= k < olds.len() ==> olds[k].wf(),
                    forall|k: int|
                        0 <= k < self.render_objects@.len() ==> (
                        #[trigger] self.render_objects@[k]).wf(),
                decreases ts.len() - i,
            {
                let t = self.pending_transforms[i];
                self.render_objects[i].update_transform(t);
                i = i + 1;
            }
        }
        self.scene_renderer.update_camera();
        let clear = Color {
            r: BITS_CLEAR_SCENE,
            g: BITS_CLEAR_SCENE,
            b: BITS_CLEAR_SCENE,
            a: BITS_ONE,
        };
        let plan = self.scene_renderer.render(&self.render_objects, clear);
        Some(plan)
    }
}

/// Law: two outputs initialized from the same values and advanced with the
/// same transform list hold, position by position, numerically identical
/// model matrices — although they share no GPU state.
pub proof fn lemma_outputs_stay_identical(
    a_old: Seq<RenderObject>,
    b_old: Seq<RenderObject>,
    a_new: Seq<RenderObject>,
    b_new: Seq<RenderObject>,
    ts: Seq<Mat4>,
)
    requires
        a_old.len() == b_old.len(),
        transforms_of(a_old) == transforms_of(b_old),
        transforms_applied(a_old, a_new, ts),
        transforms_applied(b_old, b_new, ts),
    ensures
        transforms_of(a_new) == transforms_of(b_new),
{
    assert forall|i: int| 0 <= i < a_new.len() implies transforms_of(a_new)[i] == transforms_of(
        b_new,
    )[i] by {
        assert(transforms_of(a_old)[i] == transforms_of(b_old)[i]);
    }
    assert(transforms_of(a_new) =~= transforms_of(b_new));
}

} // verus!
