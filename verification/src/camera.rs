//! Camera: view and projection parameters and the matrices derived from
//! them.  The view-projection matrix handed to the GPU is, by contract,
//! exactly the projection matrix times the view matrix.

use vstd::prelude::*;
use crate::mat4::Mat4;
use crate::mat4::look_at_bits;
use crate::mat4::mat_mul_bits;
use crate::mat4::perspective_bits;
use crate::BITS_ONE;

verus! {

/// Bit pattern of forty-five degrees in radians.
pub const BITS_FOV_45_DEG: u32 = 0x3F490FDB;

/// Bit pattern of one tenth, the default near clip distance.
pub const BITS_NEAR_DEFAULT: u32 = 0x3DCCCCCD;

/// Bit pattern of one hundred, the default far clip distance.
pub const BITS_FAR_DEFAULT: u32 = 0x42C80000;

/// Bit pattern of three, the default camera distance.
pub const BITS_THREE: u32 = 0x40400000;

/// Bit pattern of sixteen ninths, the default aspect ratio.
pub const BITS_ASPECT_16_9: u32 = 0x3FE38E39;

/// Perspective camera; every scalar is a single-precision bit pattern.
#[derive(Debug, Clone, Copy, PartialEq, Eq)]
pub struct Camera {
    pub position: [u32; 3],
    pub target: [u32; 3],
    pub up: [u32; 3],
    pub fov: u32,
    pub aspect: u32,
    pub near: u32,
    pub far: u32,
}

impl Camera {
    /// The view matrix: right-handed look-at from position toward target.
    pub open spec fn view_spec(self) -> Seq<u32> {
        look_at_bits(self.position@, self.target@, self.up@)
    }

    /// The projection matrix: right-handed perspective, zero-to-one depth.
    pub open spec fn projection_spec(self) -> Seq<u32> {
        perspective_bits(self.fov, self.aspect, self.near, self.far)
    }

    /// The combined matrix: projection times view, in that order.
    pub open spec fn view_projection_spec(self) -> Seq<u32> {
        mat_mul_bits(self.projection_spec(), self.view_spec())
    }

    /// A camera at `position` looking at `target`, with the y axis up, a
    /// forty-five degree vertical field of view and default clip distances.
    pub fn new(position: [u32; 3], target: [u32; 3], aspect: u32) -> (c: Camera)
        ensures
            c.position == position,
            c.target == target,
            c.up@ == seq![0u32, BITS_ONE, 0u32],
            c.fov == BITS_FOV_45_DEG,
            c.aspect == aspect,
            c.near == BITS_NEAR_DEFAULT,
            c.far == BITS_FAR_DEFAULT,
    {
        let up = [0u32, BITS_ONE, 0u32];
        proof {
            assert(up@ =~= seq![0u32, BITS_ONE, 0u32]);
        }
        Camera {
            position,
            target,
            up,
            fov: BITS_FOV_45_DEG,
            aspect,
            near: BITS_NEAR_DEFAULT,
            far: BITS_FAR_DEFAULT,
        }
    }

    pub fn view_matrix(&self) -> (r: Mat4)
        ensures
            r.m@ == self.view_spec(),
    {
        Mat4::look_at_rh(&self.position, &self.target, &self.up)
    }

    pub fn projection_matrix(&self) -> (r: Mat4)
        ensures
            r.m@ == self.projection_spec(),
    {
        Mat4::perspective_rh(self.fov, self.aspect, self.near, self.far)
    }

    pub fn view_projection_matrix(&self) -> (r: Mat4)
        ensures
            r.m@ == self.view_projection_spec(),
    {
        let projection = self.projection_matrix();
        let view = self.view_matrix();
        projection.mul_mat(&view)
    }

    /// Keep the aspect ratio in sync with the output surface; everything
    /// else is untouched.
    pub fn update_aspect(&mut self, aspect: u32)
        ensures
            *final(self) == (Camera { aspect, ..*old(self) }),
    {
        self.aspect = aspect;
    }
}

/// Law: the view-projection matrix is exactly the projection matrix times
/// the view matrix, with no further term.
pub proof fn lemma_view_projection_is_product(c: Camera)
    ensures
        c.view_projection_spec() == mat_mul_bits(c.projection_spec(), c.view_spec()),
{
}

impl Default for Camera {
    /// A camera three units in front of the origin with a sixteen-ninths
    /// aspect ratio.
    fn default() -> (c: Camera)
        ensures
            c.position@ == seq![0u32, 0u32, BITS_THREE],
            c.target@ == seq![0u32, 0u32, 0u32],
            c.up@ == seq![0u32, BITS_ONE, 0u32],
            c.fov == BITS_FOV_45_DEG,
            c.aspect == BITS_ASPECT_16_9,
            c.near == BITS_NEAR_DEFAULT,
            c.far == BITS_FAR_DEFAULT,
    {
        let position = [0u32, 0u32, BITS_THREE];
        let target = [0u32, 0u32, 0u32];
        proof {
            assert(position@ =~= seq![0u32, 0u32, BITS_THREE]);
            assert(target@ =~= seq![0u32, 0u32, 0u32]);
        }
        Camera::new(position, target, BITS_ASPECT_16_9)
    }
}

/// GPU-visible mirror of a camera: one view-projection matrix, overwritten
/// in place whenever the camera changes.
#[derive(Debug, Clone, Copy, PartialEq, Eq)]
pub struct CameraUniform {
    pub view_proj: [u32; 16],
}

impl CameraUniform {
    pub fn new() -> (u: CameraUniform)
        ensures
            u.view_proj@ == Mat4::identity_spec(),
    {
        CameraUniform { view_proj: Mat4::identity().m }
    }

    /// Refresh the mirror from the camera's current view-projection matrix.
    pub fn update_view_proj(&mut self, camera: &Camera)
        ensures
            final(self).view_proj@ == camera.view_projection_spec(),
    {
        self.view_proj = camera.view_projection_matrix().m;
    }
}

impl Default for CameraUniform {
    fn default() -> (u: CameraUniform)
        ensures
            u.view_proj@ == Mat4::identity_spec(),
    {
        CameraUniform::new()
    }
}

} // verus!
