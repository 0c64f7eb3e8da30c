use vstd::prelude::*;

verus! {

/// An image resource, owned externally and referenced by bindings and render
/// passes: the driver-side name plus the declared dimensions.
#[derive(Debug, PartialEq, Eq, Structural, Clone, Copy)]
pub struct Texture {
    pub texture: u32,
    pub width: u32,
    pub height: u32,
}

impl Texture {
    pub fn from_raw(texture: u32, width: u32, height: u32) -> (r: Texture)
        ensures
            r.texture == texture,
            r.width == width,
            r.height == height,
    {
        Texture { texture, width, height }
    }
}

} // verus!
