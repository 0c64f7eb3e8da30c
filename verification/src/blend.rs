use vstd::prelude::*;

verus! {

/// Blend values.
#[derive(Debug, PartialEq, Eq, Structural, Clone, Copy)]
pub enum BlendValue {
    SourceColor,
    SourceAlpha,
    DestinationColor,
    DestinationAlpha,
}

/// Blend factors.
#[derive(Debug, PartialEq, Eq, Structural, Clone, Copy)]
pub enum BlendFactor {
    Zero,
    One,
    Value(BlendValue),
    OneMinusValue(BlendValue),
    SourceAlphaSaturate,
}

/// Specifies how incoming RGBA values (source) and the RGBA in framebuffer
/// (destination) are combined.
#[derive(Debug, PartialEq, Eq, Structural, Clone, Copy)]
pub enum Equation {
    /// Adds source and destination. Source and destination are multiplied
    /// by blending parameters before addition.
    Add,
    /// Subtracts destination from source. Source and destination are
    /// multiplied by blending parameters before subtraction.
    Subtract,
    /// Subtracts source from destination. Source and destination are
    /// multiplied by blending parameters before subtraction.
    ReverseSubtract,
}

impl Default for Equation {
    fn default() -> (r: Equation)
        ensures
            r == Equation::Add,
    {
        Equation::Add
    }
}

/// Pixel arithmetic description for blending operations.
/// Will be used in an equation:
/// `equation(sfactor * source_color, dfactor * destination_color)`
/// where `source_color` is the new pixel color and destination color is the
/// color in the destination buffer.
#[derive(Debug, PartialEq, Eq, Structural, Clone, Copy)]
pub struct BlendState {
    pub equation: Equation,
    pub sfactor: BlendFactor,
    pub dfactor: BlendFactor,
}

impl BlendState {
    pub fn new(equation: Equation, sfactor: BlendFactor, dfactor: BlendFactor) -> (r: BlendState)
        ensures
            r == (BlendState { equation, sfactor, dfactor }),
    {
        BlendState { equation, sfactor, dfactor }
    }
}

} // verus!
