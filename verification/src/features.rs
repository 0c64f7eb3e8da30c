use vstd::prelude::*;

verus! {

/// Optional driver capabilities detected at context creation.
#[derive(Debug, Clone, Copy)]
pub struct Features {
    /// Whether hardware instancing is available. Callers must branch on it
    /// before requesting more than one instance per draw.
    pub instancing: bool,
}

impl Features {
    pub fn from_gles2(is_gles2: bool) -> (r: Features)
        ensures
            r.instancing == !is_gles2,
    {
        Features { instancing: !is_gles2 }
    }
}

} // verus!
