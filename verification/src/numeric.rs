//! Trusted scalar arithmetic on IEEE single-precision bit patterns.
//!
//! The engine stores every scalar the GPU consumes as the `u32` bit pattern
//! of an IEEE single-precision value.  The operations below are delegated to
//! `glam`, whose vector types work on such values; each result is given a
//! name (an uninterpreted spec function), since IEEE arithmetic depends on
//! the operand bit patterns alone and its value table has no short statement.

use vstd::prelude::*;

verus! {

/// Bit pattern of the IEEE single-precision sum of the two operands.
pub uninterp spec fn add_bits(a: u32, b: u32) -> u32;

/// Bit pattern of the IEEE single-precision product of the two operands.
pub uninterp spec fn mul_bits(a: u32, b: u32) -> u32;

/// Bit pattern of the IEEE single-precision quotient of the two operands.
pub uninterp spec fn div_bits(a: u32, b: u32) -> u32;

/// Bit pattern of the IEEE single-precision negation of the operand.
pub uninterp spec fn neg_bits(a: u32) -> u32;

/// Bit pattern of the IEEE single-precision value nearest to the integer.
pub uninterp spec fn float_of_u32(x: u32) -> u32;

/// Bit patterns of (cosine, sine) of the angle whose bit pattern is given.
pub uninterp spec fn cos_sin_bits(theta: u32) -> (u32, u32);

/// Relies on `glam::Vec2`'s `Add`: componentwise IEEE single-precision
/// addition, so the first component is the sum of the two operands.
#[verifier::external_body]
pub fn f_add(a: u32, b: u32) -> (r: u32)
    ensures
        r == add_bits(a, b),
{
    let v = glam::Vec2::splat(bytemuck::cast(a)) + glam::Vec2::splat(bytemuck::cast(b));
    bytemuck::cast(v.x)
}

/// Relies on `glam::Vec2`'s `Mul`: componentwise IEEE single-precision
/// multiplication, so the first component is the product of the two operands.
#[verifier::external_body]
pub fn f_mul(a: u32, b: u32) -> (r: u32)
    ensures
        r == mul_bits(a, b),
{
    let v = glam::Vec2::splat(bytemuck::cast(a)) * glam::Vec2::splat(bytemuck::cast(b));
    bytemuck::cast(v.x)
}

/// Relies on `glam::Vec2`'s `Div`: componentwise IEEE single-precision
/// division, so the first component is the quotient of the two operands.
#[verifier::external_body]
pub fn f_div(a: u32, b: u32) -> (r: u32)
    ensures
        r == div_bits(a, b),
{
    let v = glam::Vec2::splat(bytemuck::cast(a)) / glam::Vec2::splat(bytemuck::cast(b));
    bytemuck::cast(v.x)
}

/// Relies on `glam::Vec2`'s `Neg`: componentwise IEEE single-precision
/// negation, so the first component is the negation of the operand.
#[verifier::external_body]
pub fn f_neg(a: u32) -> (r: u32)
    ensures
        r == neg_bits(a),
{
    let v = -glam::Vec2::splat(bytemuck::cast(a));
    bytemuck::cast(v.x)
}

/// Relies on `glam::UVec2::as_vec2`: componentwise conversion of an
/// unsigned integer to the nearest IEEE single-precision value.
#[verifier::external_body]
pub fn f_of_u32(x: u32) -> (r: u32)
    ensures
        r == float_of_u32(x),
{
    let v = glam::UVec2::splat(x).as_vec2();
    bytemuck::cast(v.x)
}

/// Relies on `glam::Vec2::from_angle`: a unit vector whose components are
/// the cosine and the sine of the angle, in that order.
#[verifier::external_body]
pub fn f_cos_sin(theta: u32) -> (r: (u32, u32))
    ensures
        r == cos_sin_bits(theta),
{
    let v = glam::Vec2::from_angle(bytemuck::cast(theta));
    (bytemuck::cast(v.x), bytemuck::cast(v.y))
}

} // verus!
