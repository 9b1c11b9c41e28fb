//! Surface appearance parameters, independent of any device.

use vstd::prelude::*;
use crate::common::Color;
use crate::numeric::f_mul;
use crate::numeric::mul_bits;
use crate::BITS_HALF;
use crate::BITS_ONE;
use crate::BITS_ZERO;

verus! {

/// The shading modes a material can select.
#[derive(Debug, Clone, Copy, PartialEq, Eq, Structural)]
pub enum ShaderType {
    /// Basic unlit shading.
    Unlit,
    /// Simple shading with basic lighting.
    BasicLit,
    /// Physically-based shading.
    PBR,
    /// A custom shader, referenced by name elsewhere.
    Custom,
}

/// Material properties: albedo, metallic and roughness factors, emissive
/// color and a shading-mode tag.  A pure value, cloned freely.
#[derive(Debug, Clone, Copy, PartialEq, Eq, Structural)]
pub struct Material {
    pub color: Color,
    pub metallic: u32,
    pub roughness: u32,
    pub emissive: Color,
    pub shader_type: ShaderType,
}

impl Material {
    /// The default material: white, dielectric, half rough, no emission.
    pub fn new() -> (m: Material)
        ensures
            m.color == (Color { r: BITS_ONE, g: BITS_ONE, b: BITS_ONE, a: BITS_ONE }),
            m.metallic == BITS_ZERO,
            m.roughness == BITS_HALF,
            m.emissive == (Color { r: BITS_ZERO, g: BITS_ZERO, b: BITS_ZERO, a: BITS_ONE }),
            m.shader_type == ShaderType::BasicLit,
    {
        Material {
            color: Color::white(),
            metallic: BITS_ZERO,
            roughness: BITS_HALF,
            emissive: Color::black(),
            shader_type: ShaderType::BasicLit,
        }
    }

    /// An unlit material with the given color.
    pub fn unlit(color: Color) -> (m: Material)
        ensures
            m.color == color,
            m.metallic == BITS_ZERO,
            m.roughness == BITS_ONE,
            m.emissive == (Color { r: BITS_ZERO, g: BITS_ZERO, b: BITS_ZERO, a: BITS_ONE }),
            m.shader_type == ShaderType::Unlit,
    {
        Material {
            color,
            metallic: BITS_ZERO,
            roughness: BITS_ONE,
            emissive: Color::black(),
            shader_type: ShaderType::Unlit,
        }
    }

    /// An emissive material: the emission is the given color with each
    /// color channel scaled by `intensity`; the albedo is black.
    pub fn emissive(color: Color, intensity: u32) -> (m: Material)
        ensures
            m.color == (Color { r: BITS_ZERO, g: BITS_ZERO, b: BITS_ZERO, a: BITS_ONE }),
            m.metallic == BITS_ZERO,
            m.roughness == BITS_ONE,
            m.emissive == (Color {
                r: mul_bits(color.r, intensity),
                g: mul_bits(color.g, intensity),
                b: mul_bits(color.b, intensity),
                a: color.a,
            }),
            m.shader_type == ShaderType::Unlit,
    {
        Material {
            color: Color::black(),
            metallic: BITS_ZERO,
            roughness: BITS_ONE,
            emissive: Color {
                r: f_mul(color.r, intensity),
                g: f_mul(color.g, intensity),
                b: f_mul(color.b, intensity),
                a: color.a,
            },
            shader_type: ShaderType::Unlit,
        }
    }
}

impl Default for Material {
    fn default() -> (m: Material)
        ensures
            m.color == (Color { r: BITS_ONE, g: BITS_ONE, b: BITS_ONE, a: BITS_ONE }),
            m.metallic == BITS_ZERO,
            m.roughness == BITS_HALF,
            m.emissive == (Color { r: BITS_ZERO, g: BITS_ZERO, b: BITS_ZERO, a: BITS_ONE }),
            m.shader_type == ShaderType::BasicLit,
    {
        Material::new()
    }
}

/// The twelve uniform-buffer words of a material: albedo, emissive,
/// metallic, roughness, two words of padding.
pub open spec fn material_words(m: Material) -> Seq<u32> {
    seq![
        m.color.r,
        m.color.g,
        m.color.b,
        m.color.a,
        m.emissive.r,
        m.emissive.g,
        m.emissive.b,
        m.emissive.a,
        m.metallic,
        m.roughness,
        BITS_ZERO,
        BITS_ZERO,
    ]
}

/// GPU-visible mirror of a material, laid out as the shading pipeline
/// expects it.
#[derive(Debug, Clone, Copy, PartialEq, Eq)]
pub struct MaterialUniform {
    pub color: [u32; 4],
    pub emissive: [u32; 4],
    pub metallic: u32,
    pub roughness: u32,
    pub padding: [u32; 2],
}

impl MaterialUniform {
    /// The words in buffer order.
    pub open spec fn words(self) -> Seq<u32> {
        self.color@ + self.emissive@ + seq![self.metallic, self.roughness] + self.padding@
    }

    pub fn from_material(material: &Material) -> (u: MaterialUniform)
        ensures
            u.words() == material_words(*material),
    {
        let u = MaterialUniform {
            color: [material.color.r, material.color.g, material.color.b, material.color.a],
            emissive: [
                material.emissive.r,
                material.emissive.g,
                material.emissive.b,
                material.emissive.a,
            ],
            metallic: material.metallic,
            roughness: material.roughness,
            padding: [BITS_ZERO, BITS_ZERO],
        };
        proof {
            assert(u.words() =~= material_words(*material));
        }
        u
    }
}

/// The exact material uniform-buffer contents for a material.
pub fn material_buffer_words(material: &Material) -> (r: Vec<u32>)
    ensures
        r@ == material_words(*material),
{
    let u = MaterialUniform::from_material(material);
    let out: Vec<u32> = vec![
        u.color[0], u.color[1], u.color[2], u.color[3],
        u.emissive[0], u.emissive[1], u.emissive[2], u.emissive[3],
        u.metallic, u.roughness, u.padding[0], u.padding[1],
    ];
    proof {
        assert(out@ =~= u.words());
    }
    out
}

} // verus!
