//! Shared scene state of the primary output, and the authoritative
//! transform list handed to every live output each frame.

use vstd::prelude::*;
use crate::camera::Camera;
use crate::camera::BITS_ASPECT_16_9;
use crate::mat4::Mat4;
use crate::preview_window::transforms_of;
use crate::preview_window::BITS_CAM_X;
use crate::preview_window::BITS_CAM_Y;
use crate::preview_window::BITS_CAM_Z;
use crate::render_object::RenderObject;

verus! {

/// The primary output's scene: camera, drawables and the elapsed time
/// (a single-precision bit pattern).
#[derive(Debug, Clone, PartialEq, Eq)]
pub struct SceneState {
    pub camera: Camera,
    pub render_objects: Vec<RenderObject>,
    pub time: u32,
}

impl SceneState {
    pub open spec fn wf(self) -> bool {
        forall|i: int| 0 <= i < self.render_objects@.len() ==> self.render_objects@[i].wf()
    }

    pub fn new() -> (s: SceneState)
        ensures
            s.camera.position@ == seq![BITS_CAM_X, BITS_CAM_Y, BITS_CAM_Z],
            s.camera.target@ == seq![0u32, 0u32, 0u32],
            s.camera.aspect == BITS_ASPECT_16_9,
            s.render_objects@.len() == 0,
            s.time == 0,
            s.wf(),
    {
        let position = [BITS_CAM_X, BITS_CAM_Y, BITS_CAM_Z];
        let target = [0u32, 0u32, 0u32];
        proof {
            assert(position@ =~= seq![BITS_CAM_X, BITS_CAM_Y, BITS_CAM_Z]);
            assert(target@ =~= seq![0u32, 0u32, 0u32]);
        }
        let camera = Camera::new(position, target, BITS_ASPECT_16_9);
        SceneState { camera, render_objects: Vec::new(), time: 0 }
    }

    /// Advance the clock; transforms are updated separately, per object.
    pub fn update(&mut self, time: u32)
        ensures
            *final(self) == (SceneState { time, ..*old(self) }),
    {
        self.time = time;
    }

    /// The authoritative transform list of this frame, in object order:
    /// what `update_scene` hands to every live output.
    pub fn transforms(&self) -> (r: Vec<Mat4>)
        ensures
            r@.len() == self.render_objects@.len(),
            forall|i: int|
                0 <= i < r@.len() ==> #[trigger] r@[i] == self.render_objects@[i].transform,
            r@.map(|i: int, m: Mat4| m.m@) == transforms_of(self.render_objects@),
    {
        let mut out: Vec<Mat4> = Vec::new();
        let mut i: usize = 0;
        while i < self.render_objects.len()
            invariant
                i <= self.render_objects@.len(),
                out@.len() == i,
                forall|k: int|
                    0 <= k < i ==> #[trigger] out@[k] == self.render_objects@[k].transform,
            decreases self.render_objects@.len() - i,
        {
            out.push(self.render_objects[i].transform);
            i = i + 1;
        }
        proof {
            assert(out@.map(|i: int, m: Mat4| m.m@) =~= transforms_of(self.render_objects@));
        }
        out
    }
}

impl Default for SceneState {
    fn default() -> (s: SceneState)
        ensures
            s.camera.position@ == seq![BITS_CAM_X, BITS_CAM_Y, BITS_CAM_Z],
            s.render_objects@.len() == 0,
            s.time == 0,
    {
        SceneState::new()
    }
}

} // verus!
