//! Scene renderer: owns the camera and its uniform buffer, and plans one
//! render pass per frame over a caller-supplied list of objects.  Objects
//! missing any device-side resource are silently skipped — "not yet
//! uploaded" is not an error.

use vstd::prelude::*;
use crate::camera::Camera;
use crate::camera::CameraUniform;
use crate::common::Color;
use crate::mat4::Mat4;
use crate::render_object::RenderObject;
use crate::BITS_ONE;

verus! {

/// One indexed draw call of a render pass: which object, and how many
/// indices its full index range covers.
#[derive(Debug, Clone, Copy, PartialEq, Eq, Structural)]
pub struct DrawCall {
    pub object_index: usize,
    pub index_count: u32,
}

/// One planned render pass: clear the color attachment to `clear_color`
/// and the depth attachment to one (the far plane), bind the camera once,
/// then issue the draw calls in order.
#[derive(Debug, Clone, PartialEq, Eq)]
pub struct RenderPassPlan {
    pub clear_color: Color,
    pub depth_clear: u32,
    pub draws: Vec<DrawCall>,
}

/// The draw calls a render pass issues over `objects`: one per uploaded
/// object, in caller order; objects without device-side resources are
/// skipped.
pub open spec fn draw_plan_spec(objects: Seq<RenderObject>) -> Seq<DrawCall>
    decreases objects.len(),
{
    if objects.len() == 0 {
        Seq::empty()
    } else {
        let prefix = draw_plan_spec(objects.drop_last());
        if objects.last().loaded() {
            prefix.push(
                DrawCall {
                    object_index: (objects.len() - 1) as usize,
                    index_count: objects.last().mesh.indices@.len() as u32,
                },
            )
        } else {
            prefix
        }
    }
}

/// Manages rendering of a scene: camera state, the camera uniform and the
/// camera uniform buffer's device-side contents.
#[derive(Debug, Clone, PartialEq, Eq)]
pub struct SceneRenderer {
    pub camera: Camera,
    pub camera_uniform: CameraUniform,
    pub camera_buffer: Vec<u32>,
}

impl SceneRenderer {
    /// The camera uniform buffer holds the words of the camera uniform.
    pub open spec fn buffer_matches_uniform(self) -> bool {
        self.camera_buffer@ == self.camera_uniform.view_proj@
    }

    /// A renderer for the given camera; the uniform buffer starts from the
    /// identity matrix until the first camera update.
    pub fn new(camera: Camera) -> (r: SceneRenderer)
        ensures
            r.camera == camera,
            r.camera_uniform.view_proj@ == Mat4::identity_spec(),
            r.buffer_matches_uniform(),
    {
        let camera_uniform = CameraUniform::new();
        let camera_buffer = Mat4::identity().to_words();
        SceneRenderer { camera, camera_uniform, camera_buffer }
    }

    pub fn camera(&self) -> (c: &Camera)
        ensures
            c == self.camera,
    {
        &self.camera
    }

    /// Replace the camera; the uniform buffer is stale until the next
    /// `update_camera`.
    pub fn set_camera(&mut self, camera: Camera)
        ensures
            final(self).camera == camera,
            final(self).camera_uniform == old(self).camera_uniform,
            final(self).camera_buffer == old(self).camera_buffer,
    {
        self.camera = camera;
    }

    /// Recompute the view-projection matrix from the current camera and
    /// write it into the camera uniform buffer.  Must run before `render`
    /// in any frame that changed the camera.
    pub fn update_camera(&mut self)
        ensures
            final(self).camera == old(self).camera,
            final(self).camera_uniform.view_proj@ == old(self).camera.view_projection_spec(),
            final(self).camera_buffer@ == old(self).camera.view_projection_spec(),
            final(self).buffer_matches_uniform(),
    {
        let camera = self.camera;
        self.camera_uniform.update_view_proj(&camera);
        let m = Mat4 { m: self.camera_uniform.view_proj };
        self.camera_buffer = m.to_words();
    }

    /// Plan one render pass over `objects` in caller order: color cleared
    /// to `clear_color`, depth cleared to one, one indexed draw call per
    /// uploaded object covering its full index range, skipped objects
    /// drawing nothing.
    pub fn render(&self, objects: &Vec<RenderObject>, clear_color: Color) -> (plan:
        RenderPassPlan)
        requires
            forall|i: int| 0 <= i < objects@.len() ==> objects@[i].wf(),
        ensures
            plan.clear_color == clear_color,
            plan.depth_clear == BITS_ONE,
            plan.draws@ == draw_plan_spec(objects@),
    {
        let mut draws: Vec<DrawCall> = Vec::new();
        let mut i: usize = 0;
        while i < objects.len()
            invariant
                i <= objects@.len(),
                forall|j: int| 0 <= j < objects@.len() ==> objects@[j].wf(),
                draws@ == draw_plan_spec(objects@.take(i as int)),
            decreases objects@.len() - i,
        {
            let o = &objects[i];
            if o.gpu.is_some() {
                draws.push(
                    DrawCall { object_index: i, index_count: o.mesh.indices.len() as u32 },
                );
            }
            proof {
                assert(objects@.take(i + 1 as int).drop_last() =~= objects@.take(i as int));
                assert(objects@.take(i + 1 as int).last() == objects@[i as int]);
            }
            i = i + 1;
        }
        proof {
            assert(objects@.take(objects@.len() as int) =~= objects@);
        }
        RenderPassPlan { clear_color, depth_clear: BITS_ONE, draws }
    }
}

/// The number of draw calls a pass issues: exactly the number of uploaded
/// objects in the list.
pub open spec fn loaded_count(objects: Seq<RenderObject>) -> int
    decreases objects.len(),
{
    if objects.len() == 0 {
        0
    } else {
        loaded_count(objects.drop_last()) + if objects.last().loaded() {
            1int
        } else {
            0int
        }
    }
}

/// Law: a render pass issues one draw call per uploaded object — objects
/// not yet uploaded contribute none.
pub proof fn lemma_draws_count_loaded(objects: Seq<RenderObject>)
    ensures
        draw_plan_spec(objects).len() == loaded_count(objects),
    decreases objects.len(),
{
    if objects.len() > 0 {
        lemma_draws_count_loaded(objects.drop_last());
    }
}

/// Law: over one uploaded and one not-yet-uploaded object, a render pass
/// issues exactly one indexed draw call, and it draws the uploaded object
/// over its full index range.
pub proof fn lemma_skip_not_ready(a: RenderObject, b: RenderObject)
    requires
        a.wf(),
        a.loaded(),
        !b.loaded(),
    ensures
        draw_plan_spec(seq![a, b]).len() == 1,
        draw_plan_spec(seq![a, b])[0].object_index == 0,
        draw_plan_spec(seq![a, b])[0].index_count == a.mesh.indices@.len() as u32,
{
    let s = seq![a, b];
    assert(s.drop_last() =~= seq![a]);
    assert(seq![a].drop_last() =~= Seq::<RenderObject>::empty());
    assert(draw_plan_spec(Seq::<RenderObject>::empty()) =~= Seq::<DrawCall>::empty());
    assert(draw_plan_spec(seq![a]) =~= seq![
        DrawCall { object_index: 0, index_count: a.mesh.indices@.len() as u32 },
    ]);
}

} // verus!
