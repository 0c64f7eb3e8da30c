use vstd::prelude::*;

use crate::blend::{BlendFactor, BlendValue, Equation};
use crate::buffer::IndexType;
use crate::driver::{
    GL_ALWAYS, GL_DECR, GL_DECR_WRAP, GL_DST_ALPHA, GL_DST_COLOR, GL_EQUAL, GL_FUNC_ADD,
    GL_FUNC_REVERSE_SUBTRACT, GL_FUNC_SUBTRACT, GL_GEQUAL, GL_GREATER, GL_INCR, GL_INCR_WRAP,
    GL_INVERT, GL_KEEP, GL_LEQUAL, GL_LESS, GL_LINES, GL_LINE_STRIP, GL_NEVER, GL_NOTEQUAL,
    GL_ONE, GL_ONE_MINUS_DST_ALPHA, GL_ONE_MINUS_DST_COLOR, GL_ONE_MINUS_SRC_ALPHA,
    GL_ONE_MINUS_SRC_COLOR, GL_REPLACE, GL_SRC_ALPHA, GL_SRC_ALPHA_SATURATE, GL_SRC_COLOR,
    GL_TRIANGLES, GL_TRIANGLE_STRIP, GL_UNSIGNED_BYTE, GL_UNSIGNED_INT, GL_UNSIGNED_SHORT,
    GL_ZERO,
};
use crate::pipeline::{Comparison, PrimitiveType};
use crate::stencil::{CompareFunc, StencilOp};

verus! {

/// Driver enum for a blend equation.
pub open spec fn spec_gl_equation(eq: Equation) -> u32 {
    match eq {
        Equation::Add => GL_FUNC_ADD,
        Equation::Subtract => GL_FUNC_SUBTRACT,
        Equation::ReverseSubtract => GL_FUNC_REVERSE_SUBTRACT,
    }
}

/// Driver enum for a blend equation.
#[verifier::when_used_as_spec(spec_gl_equation)]
pub fn gl_equation(eq: Equation) -> (r: u32)
    ensures
        r == spec_gl_equation(eq),
{
    match eq {
        Equation::Add => GL_FUNC_ADD,
        Equation::Subtract => GL_FUNC_SUBTRACT,
        Equation::ReverseSubtract => GL_FUNC_REVERSE_SUBTRACT,
    }
}

/// Driver enum for a blend factor.
pub open spec fn spec_gl_blend_factor(factor: BlendFactor) -> u32 {
    match factor {
        BlendFactor::Zero => GL_ZERO,
        BlendFactor::One => GL_ONE,
        BlendFactor::Value(BlendValue::SourceColor) => GL_SRC_COLOR,
        BlendFactor::Value(BlendValue::SourceAlpha) => GL_SRC_ALPHA,
        BlendFactor::Value(BlendValue::DestinationColor) => GL_DST_COLOR,
        BlendFactor::Value(BlendValue::DestinationAlpha) => GL_DST_ALPHA,
        BlendFactor::OneMinusValue(BlendValue::SourceColor) => GL_ONE_MINUS_SRC_COLOR,
        BlendFactor::OneMinusValue(BlendValue::SourceAlpha) => GL_ONE_MINUS_SRC_ALPHA,
        BlendFactor::OneMinusValue(BlendValue::DestinationColor) => GL_ONE_MINUS_DST_COLOR,
        BlendFactor::OneMinusValue(BlendValue::DestinationAlpha) => GL_ONE_MINUS_DST_ALPHA,
        BlendFactor::SourceAlphaSaturate => GL_SRC_ALPHA_SATURATE,
    }
}

/// Driver enum for a blend factor.
#[verifier::when_used_as_spec(spec_gl_blend_factor)]
pub fn gl_blend_factor(factor: BlendFactor) -> (r: u32)
    ensures
        r == spec_gl_blend_factor(factor),
{
    match factor {
        BlendFactor::Zero => GL_ZERO,
        BlendFactor::One => GL_ONE,
        BlendFactor::Value(BlendValue::SourceColor) => GL_SRC_COLOR,
        BlendFactor::Value(BlendValue::SourceAlpha) => GL_SRC_ALPHA,
        BlendFactor::Value(BlendValue::DestinationColor) => GL_DST_COLOR,
        BlendFactor::Value(BlendValue::DestinationAlpha) => GL_DST_ALPHA,
        BlendFactor::OneMinusValue(BlendValue::SourceColor) => GL_ONE_MINUS_SRC_COLOR,
        BlendFactor::OneMinusValue(BlendValue::SourceAlpha) => GL_ONE_MINUS_SRC_ALPHA,
        BlendFactor::OneMinusValue(BlendValue::DestinationColor) => GL_ONE_MINUS_DST_COLOR,
        BlendFactor::OneMinusValue(BlendValue::DestinationAlpha) => GL_ONE_MINUS_DST_ALPHA,
        BlendFactor::SourceAlphaSaturate => GL_SRC_ALPHA_SATURATE,
    }
}

/// Driver enum for a stencil operation.
pub open spec fn spec_gl_stencil_op(op: StencilOp) -> u32 {
    match op {
        StencilOp::Keep => GL_KEEP,
        StencilOp::Zero => GL_ZERO,
        StencilOp::Replace => GL_REPLACE,
        StencilOp::IncrementClamp => GL_INCR,
        StencilOp::DecrementClamp => GL_DECR,
        StencilOp::Invert => GL_INVERT,
        StencilOp::IncrementWrap => GL_INCR_WRAP,
        StencilOp::DecrementWrap => GL_DECR_WRAP,
    }
}

/// Driver enum for a stencil operation.
#[verifier::when_used_as_spec(spec_gl_stencil_op)]
pub fn gl_stencil_op(op: StencilOp) -> (r: u32)
    ensures
        r == spec_gl_stencil_op(op),
{
    match op {
        StencilOp::Keep => GL_KEEP,
        StencilOp::Zero => GL_ZERO,
        StencilOp::Replace => GL_REPLACE,
        StencilOp::IncrementClamp => GL_INCR,
        StencilOp::DecrementClamp => GL_DECR,
        StencilOp::Invert => GL_INVERT,
        StencilOp::IncrementWrap => GL_INCR_WRAP,
        StencilOp::DecrementWrap => GL_DECR_WRAP,
    }
}

/// Driver enum for a stencil comparison function.
pub open spec fn spec_gl_compare_func(cf: CompareFunc) -> u32 {
    match cf {
        CompareFunc::Always => GL_ALWAYS,
        CompareFunc::Never => GL_NEVER,
        CompareFunc::Less => GL_LESS,
        CompareFunc::Equal => GL_EQUAL,
        CompareFunc::LessOrEqual => GL_LEQUAL,
        CompareFunc::Greater => GL_GREATER,
        CompareFunc::NotEqual => GL_NOTEQUAL,
        CompareFunc::GreaterOrEqual => GL_GEQUAL,
    }
}

/// Driver enum for a stencil comparison function.
#[verifier::when_used_as_spec(spec_gl_compare_func)]
pub fn gl_compare_func(cf: CompareFunc) -> (r: u32)
    ensures
        r == spec_gl_compare_func(cf),
{
    match cf {
        CompareFunc::Always => GL_ALWAYS,
        CompareFunc::Never => GL_NEVER,
        CompareFunc::Less => GL_LESS,
        CompareFunc::Equal => GL_EQUAL,
        CompareFunc::LessOrEqual => GL_LEQUAL,
        CompareFunc::Greater => GL_GREATER,
        CompareFunc::NotEqual => GL_NOTEQUAL,
        CompareFunc::GreaterOrEqual => GL_GEQUAL,
    }
}

/// Driver enum for a depth comparison function.
pub open spec fn spec_gl_comparison(cmp: Comparison) -> u32 {
    match cmp {
        Comparison::Never => GL_NEVER,
        Comparison::Less => GL_LESS,
        Comparison::LessOrEqual => GL_LEQUAL,
        Comparison::Greater => GL_GREATER,
        Comparison::GreaterOrEqual => GL_GEQUAL,
        Comparison::Equal => GL_EQUAL,
        Comparison::NotEqual => GL_NOTEQUAL,
        Comparison::Always => GL_ALWAYS,
    }
}

/// Driver enum for a depth comparison function.
#[verifier::when_used_as_spec(spec_gl_comparison)]
pub fn gl_comparison(cmp: Comparison) -> (r: u32)
    ensures
        r == spec_gl_comparison(cmp),
{
    match cmp {
        Comparison::Never => GL_NEVER,
        Comparison::Less => GL_LESS,
        Comparison::LessOrEqual => GL_LEQUAL,
        Comparison::Greater => GL_GREATER,
        Comparison::GreaterOrEqual => GL_GEQUAL,
        Comparison::Equal => GL_EQUAL,
        Comparison::NotEqual => GL_NOTEQUAL,
        Comparison::Always => GL_ALWAYS,
    }
}

/// Driver enum for a primitive topology.
pub open spec fn spec_gl_primitive_type(primitive_type: PrimitiveType) -> u32 {
    match primitive_type {
        PrimitiveType::Triangles => GL_TRIANGLES,
        PrimitiveType::TriangleStrip => GL_TRIANGLE_STRIP,
        PrimitiveType::Lines => GL_LINES,
        PrimitiveType::LineStrip => GL_LINE_STRIP,
    }
}

/// Driver enum for a primitive topology.
#[verifier::when_used_as_spec(spec_gl_primitive_type)]
pub fn gl_primitive_type(primitive_type: PrimitiveType) -> (r: u32)
    ensures
        r == spec_gl_primitive_type(primitive_type),
{
    match primitive_type {
        PrimitiveType::Triangles => GL_TRIANGLES,
        PrimitiveType::TriangleStrip => GL_TRIANGLE_STRIP,
        PrimitiveType::Lines => GL_LINES,
        PrimitiveType::LineStrip => GL_LINE_STRIP,
    }
}

/// Driver enum for an index element type.
pub open spec fn spec_gl_index_type(index_type: IndexType) -> u32 {
    match index_type {
        IndexType::Byte => GL_UNSIGNED_BYTE,
        IndexType::Short => GL_UNSIGNED_SHORT,
        IndexType::Int => GL_UNSIGNED_INT,
    }
}

/// Driver enum for an index element type.
#[verifier::when_used_as_spec(spec_gl_index_type)]
pub fn gl_index_type(index_type: IndexType) -> (r: u32)
    ensures
        r == spec_gl_index_type(index_type),
{
    match index_type {
        IndexType::Byte => GL_UNSIGNED_BYTE,
        IndexType::Short => GL_UNSIGNED_SHORT,
        IndexType::Int => GL_UNSIGNED_INT,
    }
}

} // verus!
