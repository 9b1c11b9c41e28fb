//! Value types shared by every part of the engine.

use vstd::prelude::*;
use crate::BITS_ONE;
use crate::BITS_ZERO;

verus! {

/// Errors surfaced by the engine.  Setup failures abort only the output
/// being created; frame-level failures are reported and the frame dropped.
#[derive(Debug, Clone, PartialEq, Eq)]
pub enum VibeVJError {
    RenderError(String),
    AudioError(String),
    SceneError(String),
    ScriptingError(String),
    IoError(String),
    SerializationError(String),
    ResourceNotFound(String),
    InvalidOperation(String),
}

/// RGBA color; each channel is the bit pattern of a single-precision
/// value in the zero-to-one range.
#[derive(Debug, Clone, Copy, PartialEq, Eq, Structural)]
pub struct Color {
    pub r: u32,
    pub g: u32,
    pub b: u32,
    pub a: u32,
}

impl Color {
    pub fn new(r: u32, g: u32, b: u32, a: u32) -> (c: Color)
        ensures
            c == (Color { r, g, b, a }),
    {
        Color { r, g, b, a }
    }

    /// Opaque white: every channel one.
    pub fn white() -> (c: Color)
        ensures
            c == (Color { r: BITS_ONE, g: BITS_ONE, b: BITS_ONE, a: BITS_ONE }),
    {
        Color { r: BITS_ONE, g: BITS_ONE, b: BITS_ONE, a: BITS_ONE }
    }

    /// Opaque black: zero color channels, alpha one.
    pub fn black() -> (c: Color)
        ensures
            c == (Color { r: BITS_ZERO, g: BITS_ZERO, b: BITS_ZERO, a: BITS_ONE }),
    {
        Color { r: BITS_ZERO, g: BITS_ZERO, b: BITS_ZERO, a: BITS_ONE }
    }

    /// Channels in r, g, b, a order.
    pub fn to_array(&self) -> (r: [u32; 4])
        ensures
            r@ == seq![self.r, self.g, self.b, self.a],
    {
        let out = [self.r, self.g, self.b, self.a];
        proof {
            assert(out@ =~= seq![self.r, self.g, self.b, self.a]);
        }
        out
    }
}

/// Time state produced once per frame by the outer loop.  `elapsed` is the
/// bit pattern of a double-precision second count, `delta` of a
/// single-precision one.
#[derive(Debug, Clone, Copy, PartialEq, Eq, Structural)]
pub struct TimeInfo {
    pub elapsed: u64,
    pub delta: u32,
    pub frame: u64,
}

/// Relies on `str`'s `PartialEq`: two string slices are equal exactly when
/// their character sequences are.
pub assume_specification[ <str as PartialEq>::eq ](s: &str, other: &str) -> (res: bool)
    ensures
        res == (s@ == other@),
;

/// Whether two string slices hold the same characters.
pub fn str_eq(a: &str, b: &str) -> (r: bool)
    ensures
        r == (a@ == b@),
{
    a.eq(b)
}

/// A position, rotation (Euler angles in radians) and scale in 3D space;
/// every scalar a single-precision bit pattern.
#[derive(Debug, Clone, Copy, PartialEq, Eq)]
pub struct Transform {
    pub position: [u32; 3],
    pub rotation: [u32; 3],
    pub scale: [u32; 3],
}

impl Transform {
    pub fn new(position: [u32; 3], rotation: [u32; 3], scale: [u32; 3]) -> (t: Transform)
        ensures
            t == (Transform { position, rotation, scale }),
    {
        Transform { position, rotation, scale }
    }

    /// The model matrix the transform denotes: scale, then the rotation of
    /// the Euler angles, then translation.
    pub fn to_matrix(&self) -> (m: crate::mat4::Mat4)
        ensures
            m.m@ == crate::mat4::srt_bits(
                self.scale@,
                crate::mat4::quat_euler_xyz_bits(self.rotation@),
                self.position@,
            ),
    {
        let q = crate::mat4::quat_from_euler_xyz(&self.rotation);
        crate::mat4::Mat4::from_scale_rotation_translation(&self.scale, &q, &self.position)
    }
}

impl Default for Transform {
    /// Zero position and rotation, unit scale.
    fn default() -> (t: Transform)
        ensures
            t.position@ == seq![0u32, 0u32, 0u32],
            t.rotation@ == seq![0u32, 0u32, 0u32],
            t.scale@ == seq![BITS_ONE, BITS_ONE, BITS_ONE],
    {
        let t = Transform {
            position: [0, 0, 0],
            rotation: [0, 0, 0],
            scale: [BITS_ONE, BITS_ONE, BITS_ONE],
        };
        proof {
            assert(t.position@ =~= seq![0u32, 0u32, 0u32]);
            assert(t.rotation@ =~= seq![0u32, 0u32, 0u32]);
            assert(t.scale@ =~= seq![BITS_ONE, BITS_ONE, BITS_ONE]);
        }
        t
    }
}

/// The texture formats the engine draws into.
#[derive(Debug, Clone, Copy, PartialEq, Eq, Structural)]
pub enum TextureFormat {
    Rgba8Unorm,
    Rgba8UnormSrgb,
    Bgra8Unorm,
    Bgra8UnormSrgb,
    Depth32Float,
}

} // verus!
