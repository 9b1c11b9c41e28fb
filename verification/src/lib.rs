//! Real-time GPU scene-rendering and multi-output synchronization engine.
//!
//! Scalar values that the shading pipeline consumes (positions, colors,
//! matrices) are carried as IEEE single-precision bit patterns in `u32`
//! words.  The arithmetic on such words is delegated to `glam` through a
//! small set of trusted wrappers in [`numeric`]; everything layered on top
//! of those words — geometry generation, camera matrices, GPU resource
//! contents, render-pass planning and output synchronization — is verified.

use vstd::prelude::*;

pub mod camera;
pub mod component;
pub mod common;
pub mod graph;
pub mod gui;
pub mod mat4;
pub mod material;
pub mod mesh;
pub mod mesh_gen;
pub mod numeric;
pub mod pipeline;
pub mod preview_window;
pub mod render_object;
pub mod render_target;
pub mod renderer;
pub mod scene;
pub mod scene_renderer;
pub mod scene_state;

verus! {

/// Bit pattern of the IEEE single-precision value one half.
pub const BITS_HALF: u32 = 0x3F000000;

/// Bit pattern of the IEEE single-precision value one.
pub const BITS_ONE: u32 = 0x3F800000;

/// Bit pattern of the IEEE single-precision value zero.
pub const BITS_ZERO: u32 = 0x00000000;

/// Bit pattern of the IEEE single-precision value minus one.
pub const BITS_NEG_ONE: u32 = 0xBF800000;

} // verus!
