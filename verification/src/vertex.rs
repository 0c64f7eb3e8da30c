use vstd::prelude::*;

use crate::driver::{GL_FLOAT, GL_UNSIGNED_BYTE, GL_UNSIGNED_INT, GL_UNSIGNED_SHORT};

verus! {

/// The shape of one vertex attribute in a vertex buffer.
#[derive(Debug, PartialEq, Eq, Structural, Clone, Copy)]
pub enum VertexFormat {
    /// One 32-bit wide float (equivalent to `f32`)
    Float1,
    /// Two 32-bit wide floats (equivalent to `[f32; 2]`)
    Float2,
    /// Three 32-bit wide floats (equivalent to `[f32; 3]`)
    Float3,
    /// Four 32-bit wide floats (equivalent to `[f32; 4]`)
    Float4,
    /// One unsigned 8-bit integer (equivalent to `u8`)
    Byte1,
    /// Two unsigned 8-bit integers (equivalent to `[u8; 2]`)
    Byte2,
    /// Three unsigned 8-bit integers (equivalent to `[u8; 3]`)
    Byte3,
    /// Four unsigned 8-bit integers (equivalent to `[u8; 4]`)
    Byte4,
    /// One unsigned 16-bit integer (equivalent to `u16`)
    Short1,
    /// Two unsigned 16-bit integers (equivalent to `[u16; 2]`)
    Short2,
    /// Three unsigned 16-bit integers (equivalent to `[u16; 3]`)
    Short3,
    /// Four unsigned 16-bit integers (equivalent to `[u16; 4]`)
    Short4,
    /// One unsigned 32-bit integer (equivalent to `[u32; 1]`)
    Int1,
    /// Two unsigned 32-bit integers (equivalent to `[u32; 2]`)
    Int2,
    /// Three unsigned 32-bit integers (equivalent to `[u32; 3]`)
    Int3,
    /// Four unsigned 32-bit integers (equivalent to `[u32; 4]`)
    Int4,
    /// Four by four matrix of 32-bit floats
    Mat4,
}

impl VertexFormat {
    /// Number of components in one attribute of this format.
    pub open spec fn spec_size(&self) -> i32 {
        match self {
            VertexFormat::Float1 => 1,
            VertexFormat::Float2 => 2,
            VertexFormat::Float3 => 3,
            VertexFormat::Float4 => 4,
            VertexFormat::Byte1 => 1,
            VertexFormat::Byte2 => 2,
            VertexFormat::Byte3 => 3,
            VertexFormat::Byte4 => 4,
            VertexFormat::Short1 => 1,
            VertexFormat::Short2 => 2,
            VertexFormat::Short3 => 3,
            VertexFormat::Short4 => 4,
            VertexFormat::Int1 => 1,
            VertexFormat::Int2 => 2,
            VertexFormat::Int3 => 3,
            VertexFormat::Int4 => 4,
            VertexFormat::Mat4 => 16,
        }
    }

    /// Number of components in one attribute of this format.
    #[verifier::when_used_as_spec(spec_size)]
    pub fn size(&self) -> (r: i32)
        ensures
            r == self.spec_size(),
    {
        match self {
            VertexFormat::Float1 => 1,
            VertexFormat::Float2 => 2,
            VertexFormat::Float3 => 3,
            VertexFormat::Float4 => 4,
            VertexFormat::Byte1 => 1,
            VertexFormat::Byte2 => 2,
            VertexFormat::Byte3 => 3,
            VertexFormat::Byte4 => 4,
            VertexFormat::Short1 => 1,
            VertexFormat::Short2 => 2,
            VertexFormat::Short3 => 3,
            VertexFormat::Short4 => 4,
            VertexFormat::Int1 => 1,
            VertexFormat::Int2 => 2,
            VertexFormat::Int3 => 3,
            VertexFormat::Int4 => 4,
            VertexFormat::Mat4 => 16,
        }
    }

    /// Byte length of one attribute of this format.
    pub open spec fn spec_byte_len(&self) -> i32 {
        match self {
            VertexFormat::Float1 => 4,
            VertexFormat::Float2 => 8,
            VertexFormat::Float3 => 12,
            VertexFormat::Float4 => 16,
            VertexFormat::Byte1 => 1,
            VertexFormat::Byte2 => 2,
            VertexFormat::Byte3 => 3,
            VertexFormat::Byte4 => 4,
            VertexFormat::Short1 => 2,
            VertexFormat::Short2 => 4,
            VertexFormat::Short3 => 6,
            VertexFormat::Short4 => 8,
            VertexFormat::Int1 => 4,
            VertexFormat::Int2 => 8,
            VertexFormat::Int3 => 12,
            VertexFormat::Int4 => 16,
            VertexFormat::Mat4 => 64,
        }
    }

    /// Byte length of one attribute of this format.
    #[verifier::when_used_as_spec(spec_byte_len)]
    pub fn byte_len(&self) -> (r: i32)
        ensures
            r == self.spec_byte_len(),
    {
        match self {
            VertexFormat::Float1 => 4,
            VertexFormat::Float2 => 8,
            VertexFormat::Float3 => 12,
            VertexFormat::Float4 => 16,
            VertexFormat::Byte1 => 1,
            VertexFormat::Byte2 => 2,
            VertexFormat::Byte3 => 3,
            VertexFormat::Byte4 => 4,
            VertexFormat::Short1 => 2,
            VertexFormat::Short2 => 4,
            VertexFormat::Short3 => 6,
            VertexFormat::Short4 => 8,
            VertexFormat::Int1 => 4,
            VertexFormat::Int2 => 8,
            VertexFormat::Int3 => 12,
            VertexFormat::Int4 => 16,
            VertexFormat::Mat4 => 64,
        }
    }

    /// Driver enum for the component scalar type of this format.
    pub open spec fn spec_type_(&self) -> u32 {
        match self {
            VertexFormat::Float1 => GL_FLOAT,
            VertexFormat::Float2 => GL_FLOAT,
            VertexFormat::Float3 => GL_FLOAT,
            VertexFormat::Float4 => GL_FLOAT,
            VertexFormat::Byte1 => GL_UNSIGNED_BYTE,
            VertexFormat::Byte2 => GL_UNSIGNED_BYTE,
            VertexFormat::Byte3 => GL_UNSIGNED_BYTE,
            VertexFormat::Byte4 => GL_UNSIGNED_BYTE,
            VertexFormat::Short1 => GL_UNSIGNED_SHORT,
            VertexFormat::Short2 => GL_UNSIGNED_SHORT,
            VertexFormat::Short3 => GL_UNSIGNED_SHORT,
            VertexFormat::Short4 => GL_UNSIGNED_SHORT,
            VertexFormat::Int1 => GL_UNSIGNED_INT,
            VertexFormat::Int2 => GL_UNSIGNED_INT,
            VertexFormat::Int3 => GL_UNSIGNED_INT,
            VertexFormat::Int4 => GL_UNSIGNED_INT,
            VertexFormat::Mat4 => GL_FLOAT,
        }
    }

    /// Driver enum for the component scalar type of this format.
    #[verifier::when_used_as_spec(spec_type_)]
    pub fn type_(&self) -> (r: u32)
        ensures
            r == self.spec_type_(),
    {
        match self {
            VertexFormat::Float1 => GL_FLOAT,
            VertexFormat::Float2 => GL_FLOAT,
            VertexFormat::Float3 => GL_FLOAT,
            VertexFormat::Float4 => GL_FLOAT,
            VertexFormat::Byte1 => GL_UNSIGNED_BYTE,
            VertexFormat::Byte2 => GL_UNSIGNED_BYTE,
            VertexFormat::Byte3 => GL_UNSIGNED_BYTE,
            VertexFormat::Byte4 => GL_UNSIGNED_BYTE,
            VertexFormat::Short1 => GL_UNSIGNED_SHORT,
            VertexFormat::Short2 => GL_UNSIGNED_SHORT,
            VertexFormat::Short3 => GL_UNSIGNED_SHORT,
            VertexFormat::Short4 => GL_UNSIGNED_SHORT,
            VertexFormat::Int1 => GL_UNSIGNED_INT,
            VertexFormat::Int2 => GL_UNSIGNED_INT,
            VertexFormat::Int3 => GL_UNSIGNED_INT,
            VertexFormat::Int4 => GL_UNSIGNED_INT,
            VertexFormat::Mat4 => GL_FLOAT,
        }
    }
}

/// Whether an attribute advances per vertex or per instance.
#[derive(Debug, PartialEq, Eq, Structural, Clone, Copy)]
pub enum VertexStep {
    PerVertex,
    PerInstance,
}

impl Default for VertexStep {
    fn default() -> (r: VertexStep)
        ensures
            r == VertexStep::PerVertex,
    {
        VertexStep::PerVertex
    }
}

/// One declarative vertex attribute: a shader input name, its format, and
/// the vertex buffer it is sourced from.
#[derive(Debug, Clone, Copy)]
pub struct VertexAttribute {
    pub name: &'static str,
    pub format: VertexFormat,
    pub buffer_index: usize,
}

impl VertexAttribute {
    pub fn new(name: &'static str, format: VertexFormat) -> (r: VertexAttribute)
        ensures
            r.name == name,
            r.format == format,
            r.buffer_index == 0,
    {
        Self::with_buffer(name, format, 0)
    }

    pub fn with_buffer(name: &'static str, format: VertexFormat, buffer_index: usize) -> (r:
        VertexAttribute)
        ensures
            r.name == name,
            r.format == format,
            r.buffer_index == buffer_index,
    {
        VertexAttribute { name, format, buffer_index }
    }
}

/// Declarative layout of one vertex buffer: an explicit stride, or 0 to have
/// the stride computed from the attributes assigned to the buffer.
#[derive(Debug, Clone, Copy)]
pub struct BufferLayout {
    pub stride: i32,
    pub step_func: VertexStep,
    pub step_rate: i32,
}

impl Default for BufferLayout {
    fn default() -> (r: BufferLayout)
        ensures
            r.stride == 0,
            r.step_func == VertexStep::PerVertex,
            r.step_rate == 1,
    {
        BufferLayout { stride: 0, step_func: VertexStep::PerVertex, step_rate: 1 }
    }
}

/// A pipeline's declarative vertex layout: buffer descriptors plus the
/// attributes sourced from them.
#[derive(Debug, Clone, Copy)]
pub struct PipelineLayout {
    pub buffers: &'static [BufferLayout],
    pub attributes: &'static [VertexAttribute],
}

} // verus!
