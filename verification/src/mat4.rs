//! Column-major 4×4 matrices of single-precision bit patterns, with the
//! matrix arithmetic delegated to `glam` behind trusted wrappers.

use vstd::prelude::*;
use crate::BITS_ONE;

verus! {

/// A 4×4 matrix in column-major order; each word is the bit pattern of a
/// single-precision value.
#[derive(Debug, Clone, Copy, PartialEq, Eq)]
pub struct Mat4 {
    pub m: [u32; 16],
}

/// Bit patterns of the matrix product of the two column-major operands.
pub uninterp spec fn mat_mul_bits(a: Seq<u32>, b: Seq<u32>) -> Seq<u32>;

/// Bit patterns of the right-handed look-at view matrix for the given eye
/// position, focal point and up direction (each three words).
pub uninterp spec fn look_at_bits(eye: Seq<u32>, center: Seq<u32>, up: Seq<u32>) -> Seq<u32>;

/// Bit patterns of the right-handed perspective projection matrix with a
/// zero-to-one depth range, from vertical field of view, aspect ratio and
/// the two clip distances.
pub uninterp spec fn perspective_bits(fov: u32, aspect: u32, near: u32, far: u32) -> Seq<u32>;

/// Bit patterns of the translation matrix for the given offset.
pub uninterp spec fn translation_bits(t: Seq<u32>) -> Seq<u32>;

/// Bit patterns of the rotation matrix for the given intrinsic x-y-z Euler
/// angles.
pub uninterp spec fn euler_xyz_bits(r: Seq<u32>) -> Seq<u32>;

/// Bit patterns of the non-uniform scale matrix for the given factors.
pub uninterp spec fn scale_bits(s: Seq<u32>) -> Seq<u32>;

/// Bit patterns of the unit quaternion (x, y, z, w) for the given
/// intrinsic x-y-z Euler angles.
pub uninterp spec fn quat_euler_xyz_bits(r: Seq<u32>) -> Seq<u32>;

/// Bit patterns of the matrix composed of a scale, a rotation quaternion
/// and a translation, applied in that order.
pub uninterp spec fn srt_bits(scale: Seq<u32>, rotation: Seq<u32>, translation: Seq<u32>) -> Seq<
    u32,
>;

/// Relies on `glam::Quat::from_euler` with the intrinsic x-y-z order.
#[verifier::external_body]
pub fn quat_from_euler_xyz(rot: &[u32; 3]) -> (r: [u32; 4])
    ensures
        r@ == quat_euler_xyz_bits(rot@),
{
    let q = glam::Quat::from_euler(
        glam::EulerRot::XYZ,
        bytemuck::cast(rot[0]),
        bytemuck::cast(rot[1]),
        bytemuck::cast(rot[2]),
    );
    bytemuck::cast(q.to_array())
}

impl Mat4 {
    /// The identity matrix: ones on the diagonal, zeros elsewhere.
    pub open spec fn identity_spec() -> Seq<u32> {
        seq![
            BITS_ONE, 0u32, 0u32, 0u32,
            0u32, BITS_ONE, 0u32, 0u32,
            0u32, 0u32, BITS_ONE, 0u32,
            0u32, 0u32, 0u32, BITS_ONE,
        ]
    }

    pub fn identity() -> (r: Mat4)
        ensures
            r.m@ == Mat4::identity_spec(),
    {
        let out = Mat4 {
            m: [
                BITS_ONE, 0, 0, 0,
                0, BITS_ONE, 0, 0,
                0, 0, BITS_ONE, 0,
                0, 0, 0, BITS_ONE,
            ],
        };
        proof {
            assert(out.m@ =~= Mat4::identity_spec());
        }
        out
    }

    /// Relies on `glam::Mat4`'s `Mul`: the matrix product of the two
    /// column-major operands.
    #[verifier::external_body]
    pub fn mul_mat(&self, rhs: &Mat4) -> (r: Mat4)
        ensures
            r.m@ == mat_mul_bits(self.m@, rhs.m@),
    {
        let a = glam::Mat4::from_cols_array(&bytemuck::cast(self.m));
        let b = glam::Mat4::from_cols_array(&bytemuck::cast(rhs.m));
        Mat4 { m: bytemuck::cast((a * b).to_cols_array()) }
    }

    /// Relies on `glam::camera::rh::view::look_at_mat4`: the right-handed
    /// view matrix looking from `eye` toward `center` with up direction `up`.
    #[verifier::external_body]
    pub fn look_at_rh(eye: &[u32; 3], center: &[u32; 3], up: &[u32; 3]) -> (r: Mat4)
        ensures
            r.m@ == look_at_bits(eye@, center@, up@),
    {
        let m = glam::camera::rh::view::look_at_mat4(
            glam::Vec3::from_array(bytemuck::cast(*eye)),
            glam::Vec3::from_array(bytemuck::cast(*center)),
            glam::Vec3::from_array(bytemuck::cast(*up)),
        );
        Mat4 { m: bytemuck::cast(m.to_cols_array()) }
    }

    /// Relies on `glam::camera::rh::proj::directx::perspective`: the
    /// right-handed perspective projection with a zero-to-one depth range,
    /// the convention of the target graphics API.
    #[verifier::external_body]
    pub fn perspective_rh(fov: u32, aspect: u32, near: u32, far: u32) -> (r: Mat4)
        ensures
            r.m@ == perspective_bits(fov, aspect, near, far),
    {
        let m = glam::camera::rh::proj::directx::perspective(
            bytemuck::cast(fov),
            bytemuck::cast(aspect),
            bytemuck::cast(near),
            bytemuck::cast(far),
        );
        Mat4 { m: bytemuck::cast(m.to_cols_array()) }
    }

    /// Relies on `glam::Mat4::from_translation`.
    #[verifier::external_body]
    pub fn from_translation(t: &[u32; 3]) -> (r: Mat4)
        ensures
            r.m@ == translation_bits(t@),
    {
        let m = glam::Mat4::from_translation(glam::Vec3::from_array(bytemuck::cast(*t)));
        Mat4 { m: bytemuck::cast(m.to_cols_array()) }
    }

    /// Relies on `glam::Mat4::from_euler` with the intrinsic x-y-z order.
    #[verifier::external_body]
    pub fn from_euler_xyz(rot: &[u32; 3]) -> (r: Mat4)
        ensures
            r.m@ == euler_xyz_bits(rot@),
    {
        let m = glam::Mat4::from_euler(
            glam::EulerRot::XYZ,
            bytemuck::cast(rot[0]),
            bytemuck::cast(rot[1]),
            bytemuck::cast(rot[2]),
        );
        Mat4 { m: bytemuck::cast(m.to_cols_array()) }
    }

    /// Relies on `glam::Mat4::from_scale`.
    #[verifier::external_body]
    pub fn from_scale(s: &[u32; 3]) -> (r: Mat4)
        ensures
            r.m@ == scale_bits(s@),
    {
        let m = glam::Mat4::from_scale(glam::Vec3::from_array(bytemuck::cast(*s)));
        Mat4 { m: bytemuck::cast(m.to_cols_array()) }
    }

    /// Relies on `glam::Mat4::from_scale_rotation_translation`.
    #[verifier::external_body]
    pub fn from_scale_rotation_translation(scale: &[u32; 3], rotation: &[u32; 4], translation: &[
        u32; 3 ]) -> (r: Mat4)
        ensures
            r.m@ == srt_bits(scale@, rotation@, translation@),
    {
        let m = glam::Mat4::from_scale_rotation_translation(
            glam::Vec3::from_array(bytemuck::cast(*scale)),
            glam::Quat::from_array(bytemuck::cast(*rotation)),
            glam::Vec3::from_array(bytemuck::cast(*translation)),
        );
        Mat4 { m: bytemuck::cast(m.to_cols_array()) }
    }

    /// The sixteen words in column-major order.
    pub fn to_words(&self) -> (r: Vec<u32>)
        ensures
            r@ == self.m@,
    {
        let mut out: Vec<u32> = Vec::new();
        let mut i: usize = 0;
        while i < 16
            invariant
                i <= 16,
                out@ == self.m@.take(i as int),
            decreases 16 - i,
        {
            out.push(self.m[i]);
            proof {
                assert(out@ =~= self.m@.take(i + 1 as int));
            }
            i = i + 1;
        }
        proof {
            assert(self.m@.take(16int) =~= self.m@);
        }
        out
    }
}

} // verus!
