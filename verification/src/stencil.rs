use vstd::prelude::*;

verus! {

/// Operations performed on the stencil buffer.
#[derive(Debug, PartialEq, Eq, Structural, Clone, Copy)]
pub enum StencilOp {
    /// Default value
    Keep,
    Zero,
    Replace,
    IncrementClamp,
    DecrementClamp,
    Invert,
    IncrementWrap,
    DecrementWrap,
}

/// Stencil comparison function.
#[derive(Debug, PartialEq, Eq, Structural, Clone, Copy)]
pub enum CompareFunc {
    /// Default value
    Always,
    Never,
    Less,
    Equal,
    LessOrEqual,
    Greater,
    NotEqual,
    GreaterOrEqual,
}

/// Stencil state for one polygon face.
#[derive(Debug, PartialEq, Eq, Structural, Clone, Copy)]
pub struct StencilFaceState {
    /// Operation to use when the stencil test fails.
    pub fail_op: StencilOp,
    /// Operation to use when the stencil test passes but the depth test fails.
    pub depth_fail_op: StencilOp,
    /// Operation to use when both the stencil test and the depth test pass.
    pub pass_op: StencilOp,
    /// Used for stencil testing with `test_ref` and `test_mask`.
    pub test_func: CompareFunc,
    /// Default value: 0
    pub test_ref: i32,
    /// Default value: all 1s
    pub test_mask: u32,
    /// Write mask for the stencil buffer.
    pub write_mask: u32,
}

/// Stencil test state: one configuration per front and back face.
#[derive(Debug, PartialEq, Eq, Structural, Clone, Copy)]
pub struct StencilState {
    pub front: StencilFaceState,
    pub back: StencilFaceState,
}

} // verus!
