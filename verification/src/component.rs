//! Components that scene nodes carry.

use vstd::prelude::*;
use crate::common::Color;

verus! {

/// Kinds of light source.
#[derive(Debug, Clone, Copy, PartialEq, Eq, Structural)]
pub enum LightType {
    Directional,
    Point,
    Spot,
}

/// Parameter values a shader effect takes; scalars are single-precision
/// bit patterns.
#[derive(Debug, Clone, PartialEq, Eq)]
pub enum ShaderParameter {
    Float(u32),
    Vec2([u32; 2]),
    Vec3([u32; 3]),
    Vec4([u32; 4]),
    Color(Color),
    Texture(String),
    Bool(bool),
    Int(i32),
}

/// Component kinds, for querying.
#[derive(Debug, Clone, Copy, PartialEq, Eq, Structural)]
pub enum ComponentType {
    MeshRenderer,
    Camera,
    Light,
    ShaderEffect,
    AudioAnalyzer,
    Script,
    SpriteRenderer,
    VideoPlayer,
}

/// A component attached to a scene node.
#[derive(Debug, Clone, PartialEq, Eq)]
pub enum Component {
    /// 3D mesh renderer.
    MeshRenderer { mesh: String, material: String },
    /// Camera parameters.
    Camera { fov: u32, near: u32, far: u32 },
    /// Light source.
    Light { color: Color, intensity: u32, light_type: LightType },
    /// Shader effect with named parameters.
    ShaderEffect { shader: String, parameters: Vec<(String, ShaderParameter)> },
    /// Audio analyzer settings.
    AudioAnalyzer { fft_size: usize, enabled: bool },
    /// Script behavior.
    Script { script_name: String, enabled: bool },
    /// 2D sprite renderer.
    SpriteRenderer { texture: String, color: Color },
    /// Video player.
    VideoPlayer { video_path: String, playing: bool, loop_enabled: bool },
}

impl Component {
    /// The component's type name.
    pub open spec fn component_type_spec(self) -> Seq<char> {
        match self {
            Component::MeshRenderer { .. } => "MeshRenderer"@,
            Component::Camera { .. } => "Camera"@,
            Component::Light { .. } => "Light"@,
            Component::ShaderEffect { .. } => "ShaderEffect"@,
            Component::AudioAnalyzer { .. } => "AudioAnalyzer"@,
            Component::Script { .. } => "Script"@,
            Component::SpriteRenderer { .. } => "SpriteRenderer"@,
            Component::VideoPlayer { .. } => "VideoPlayer"@,
        }
    }

    /// The component type as a string.
    pub fn component_type(&self) -> (s: &str)
        ensures
            s@ == self.component_type_spec(),
    {
        match self {
            Component::MeshRenderer { .. } => "MeshRenderer",
            Component::Camera { .. } => "Camera",
            Component::Light { .. } => "Light",
            Component::ShaderEffect { .. } => "ShaderEffect",
            Component::AudioAnalyzer { .. } => "AudioAnalyzer",
            Component::Script { .. } => "Script",
            Component::SpriteRenderer { .. } => "SpriteRenderer",
            Component::VideoPlayer { .. } => "VideoPlayer",
        }
    }
}

} // verus!
