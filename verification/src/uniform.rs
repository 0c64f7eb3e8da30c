use vstd::prelude::*;

verus! {

/// The scalar/vector/matrix type of one uniform slot declared by a shader.
#[derive(Debug, PartialEq, Eq, Structural, Clone, Copy)]
pub enum UniformType {
    /// One 32-bit wide float (equivalent to `f32`)
    Float1,
    /// Two 32-bit wide floats (equivalent to `[f32; 2]`)
    Float2,
    /// Three 32-bit wide floats (equivalent to `[f32; 3]`)
    Float3,
    /// Four 32-bit wide floats (equivalent to `[f32; 4]`)
    Float4,
    /// One signed 32-bit integer (equivalent to `i32`)
    Int1,
    /// Two signed 32-bit integers (equivalent to `[i32; 2]`)
    Int2,
    /// Three signed 32-bit integers (equivalent to `[i32; 3]`)
    Int3,
    /// Four signed 32-bit integers (equivalent to `[i32; 4]`)
    Int4,
    /// Four by four matrix of 32-bit floats
    Mat4,
}

impl UniformType {
    /// Byte size of one element of this uniform type.
    pub open spec fn spec_size(&self) -> usize {
        match self {
            UniformType::Float1 => 4,
            UniformType::Float2 => 8,
            UniformType::Float3 => 12,
            UniformType::Float4 => 16,
            UniformType::Int1 => 4,
            UniformType::Int2 => 8,
            UniformType::Int3 => 12,
            UniformType::Int4 => 16,
            UniformType::Mat4 => 64,
        }
    }

    /// Byte size of one element of this uniform type.
    #[verifier::when_used_as_spec(spec_size)]
    pub fn size(&self) -> (r: usize)
        ensures
            r == self.spec_size(),
    {
        match self {
            UniformType::Float1 => 4,
            UniformType::Float2 => 8,
            UniformType::Float3 => 12,
            UniformType::Float4 => 16,
            UniformType::Int1 => 4,
            UniformType::Int2 => 8,
            UniformType::Int3 => 12,
            UniformType::Int4 => 16,
            UniformType::Mat4 => 64,
        }
    }

    /// Size of one element of this uniform type in 4-byte words.
    pub open spec fn spec_words(&self) -> usize {
        (self.spec_size() / 4) as usize
    }

    /// Size of one element of this uniform type in 4-byte words.
    #[verifier::when_used_as_spec(spec_words)]
    pub fn words(&self) -> (r: usize)
        ensures
            r == self.spec_words(),
    {
        self.size() / 4
    }
}

/// One uniform slot as declared by the caller's shader metadata.
#[derive(Debug, Clone)]
pub struct UniformDesc {
    pub name: String,
    pub uniform_type: UniformType,
    pub array_count: usize,
}

impl UniformDesc {
    pub fn new(name: String, uniform_type: UniformType, array_count: usize) -> (r: UniformDesc)
        ensures
            r.name == name,
            r.uniform_type == uniform_type,
            r.array_count == array_count,
    {
        UniformDesc { name, uniform_type, array_count }
    }
}

/// The ordered uniform slots of one shader's uniform block.
#[derive(Debug, Clone)]
pub struct UniformBlockLayout {
    pub uniforms: Vec<UniformDesc>,
}

} // verus!
