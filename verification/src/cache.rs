use vstd::prelude::*;

use crate::blend::BlendState;
use crate::buffer::IndexType;
use crate::context::ColorMask;
use crate::driver::{
    Driver, DriverCall, GL_ARRAY_BUFFER, GL_ELEMENT_ARRAY_BUFFER, GL_TEXTURE0, GL_TEXTURE_2D,
    MAX_SHADERSTAGE_IMAGES, MAX_VERTEX_ATTRIBUTES,
};
use crate::pipeline::{CullFace, Pipeline, VertexAttributeInternal};
use crate::stencil::StencilState;

verus! {

/// The attribute-slot configuration last applied to the driver, together
/// with the vertex buffer that was bound when the pointer was set.
#[derive(Debug, PartialEq, Eq, Structural, Clone, Copy)]
pub struct CachedAttribute {
    pub attribute: VertexAttributeInternal,
    pub gl_vbuf: u32,
}

/// Mathematical model of the state cache.
pub ghost struct CacheModel {
    pub stored_index_buffer: Option<u32>,
    pub stored_index_type: Option<IndexType>,
    pub stored_vertex_buffer: Option<u32>,
    pub stored_texture: Option<u32>,
    pub index_buffer: u32,
    pub index_type: Option<IndexType>,
    pub vertex_buffer: u32,
    pub active_texture_unit: u32,
    pub textures: Seq<u32>,
    pub cur_pipeline: Option<Pipeline>,
    pub color_blend: Option<BlendState>,
    pub alpha_blend: Option<BlendState>,
    pub stencil: Option<StencilState>,
    pub color_write: ColorMask,
    pub cull_face: CullFace,
    pub attributes: Seq<Option<CachedAttribute>>,
}

/// The caller-visible record of what is currently bound in the driver, with
/// store/restore scratch slots for temporary rebinds.
///
/// Every mutating operation is idempotent at the driver level: repeating a
/// call with the arguments already in effect issues zero driver calls.
///
/// The scratch slots distinguish "no snapshot" from "a snapshot of binding
/// 0", so a restore re-applies whatever was bound, including nothing, and
/// then clears the slot. Nesting is not supported: a second store before a
/// restore clobbers the first snapshot.
pub struct GlCache {
    pub stored_index_buffer: Option<u32>,
    pub stored_index_type: Option<IndexType>,
    pub stored_vertex_buffer: Option<u32>,
    pub stored_texture: Option<u32>,
    pub index_buffer: u32,
    pub index_type: Option<IndexType>,
    pub vertex_buffer: u32,
    /// Raw enum value of the driver's active texture unit
    /// (`GL_TEXTURE0 + slot`).
    pub active_texture_unit: u32,
    pub textures: Vec<u32>,
    pub cur_pipeline: Option<Pipeline>,
    pub color_blend: Option<BlendState>,
    pub alpha_blend: Option<BlendState>,
    pub stencil: Option<StencilState>,
    pub color_write: ColorMask,
    pub cull_face: CullFace,
    pub attributes: Vec<Option<CachedAttribute>>,
}

impl View for GlCache {
    type V = CacheModel;

    open spec fn view(&self) -> CacheModel {
        CacheModel {
            stored_index_buffer: self.stored_index_buffer,
            stored_index_type: self.stored_index_type,
            stored_vertex_buffer: self.stored_vertex_buffer,
            stored_texture: self.stored_texture,
            index_buffer: self.index_buffer,
            index_type: self.index_type,
            vertex_buffer: self.vertex_buffer,
            active_texture_unit: self.active_texture_unit,
            textures: self.textures@,
            cur_pipeline: self.cur_pipeline,
            color_blend: self.color_blend,
            alpha_blend: self.alpha_blend,
            stencil: self.stencil,
            color_write: self.color_write,
            cull_face: self.cull_face,
            attributes: self.attributes@,
        }
    }
}

impl CacheModel {
    /// Structural well-formedness: the tracked tables have their fixed sizes.
    pub open spec fn wf(self) -> bool {
        &&& self.textures.len() == MAX_SHADERSTAGE_IMAGES
        &&& self.attributes.len() == MAX_VERTEX_ATTRIBUTES
    }
}

/// Cache state right after context creation: nothing bound, no pipeline,
/// default color mask and no culling, matching the driver's initial state.
pub open spec fn initial_cache() -> CacheModel {
    CacheModel {
        stored_index_buffer: None,
        stored_index_type: None,
        stored_vertex_buffer: None,
        stored_texture: None,
        index_buffer: 0,
        index_type: None,
        vertex_buffer: 0,
        active_texture_unit: GL_TEXTURE0,
        textures: Seq::new(MAX_SHADERSTAGE_IMAGES as nat, |i: int| 0u32),
        cur_pipeline: None,
        color_blend: None,
        alpha_blend: None,
        stencil: None,
        color_write: (true, true, true, true),
        cull_face: CullFace::Nothing,
        attributes: Seq::new(MAX_VERTEX_ATTRIBUTES as nat, |i: int| None::<CachedAttribute>),
    }
}

/// New cache state after `bind_buffer`.
pub open spec fn spec_bind_buffer(
    c: CacheModel,
    target: u32,
    buffer: u32,
    index_type: Option<IndexType>,
) -> CacheModel {
    if target == GL_ARRAY_BUFFER {
        CacheModel { vertex_buffer: buffer, ..c }
    } else {
        CacheModel { index_buffer: buffer, index_type: index_type, ..c }
    }
}

/// Driver calls `bind_buffer` issues: one bind, or none when the buffer is
/// already bound to the target.
pub open spec fn spec_bind_buffer_calls(c: CacheModel, target: u32, buffer: u32) -> Seq<
    DriverCall,
> {
    if target == GL_ARRAY_BUFFER {
        if c.vertex_buffer == buffer {
            Seq::empty()
        } else {
            seq![DriverCall::BindBuffer { target, buffer }]
        }
    } else {
        if c.index_buffer == buffer {
            Seq::empty()
        } else {
            seq![DriverCall::BindBuffer { target, buffer }]
        }
    }
}

/// New cache state after `store_buffer_binding`.
pub open spec fn spec_store_buffer_binding(c: CacheModel, target: u32) -> CacheModel {
    if target == GL_ARRAY_BUFFER {
        CacheModel { stored_vertex_buffer: Some(c.vertex_buffer), ..c }
    } else {
        CacheModel {
            stored_index_buffer: Some(c.index_buffer),
            stored_index_type: c.index_type,
            ..c
        }
    }
}

/// New cache state after `restore_buffer_binding`: the snapshot, if one was
/// taken, is re-applied — a snapshot of binding 0 rebinds 0 — and the
/// scratch slot is cleared.
pub open spec fn spec_restore_buffer_binding(c: CacheModel, target: u32) -> CacheModel {
    if target == GL_ARRAY_BUFFER {
        match c.stored_vertex_buffer {
            Some(b) => CacheModel {
                stored_vertex_buffer: None,
                ..spec_bind_buffer(c, target, b, None)
            },
            None => c,
        }
    } else {
        match c.stored_index_buffer {
            Some(b) => CacheModel {
                stored_index_buffer: None,
                stored_index_type: None,
                ..spec_bind_buffer(c, target, b, c.stored_index_type)
            },
            None => c,
        }
    }
}

/// Driver calls `restore_buffer_binding` issues.
pub open spec fn spec_restore_buffer_binding_calls(c: CacheModel, target: u32) -> Seq<
    DriverCall,
> {
    if target == GL_ARRAY_BUFFER {
        match c.stored_vertex_buffer {
            Some(b) => spec_bind_buffer_calls(c, target, b),
            None => Seq::empty(),
        }
    } else {
        match c.stored_index_buffer {
            Some(b) => spec_bind_buffer_calls(c, target, b),
            None => Seq::empty(),
        }
    }
}

/// New cache state after `bind_texture`: a no-op when the texture is already
/// bound to the unit; otherwise the unit becomes active and the slot is
/// rebound.
pub open spec fn spec_bind_texture(c: CacheModel, slot_index: usize, texture: u32) -> CacheModel {
    if c.textures[slot_index as int] == texture {
        c
    } else {
        CacheModel {
            active_texture_unit: (GL_TEXTURE0 + slot_index) as u32,
            textures: c.textures.update(slot_index as int, texture),
            ..c
        }
    }
}

/// Driver calls `bind_texture` issues: none when the texture is already
/// bound to the unit; otherwise an activation (skipped when the unit is
/// already active) and the bind.
pub open spec fn spec_bind_texture_calls(c: CacheModel, slot_index: usize, texture: u32) -> Seq<
    DriverCall,
> {
    if c.textures[slot_index as int] == texture {
        Seq::empty()
    } else {
        (if c.active_texture_unit == (GL_TEXTURE0 + slot_index) as u32 {
            Seq::empty()
        } else {
            seq![DriverCall::ActiveTexture { unit: (GL_TEXTURE0 + slot_index) as u32 }]
        }) + seq![DriverCall::BindTexture { target: GL_TEXTURE_2D, texture }]
    }
}

/// New cache state after `restore_texture_binding`.
pub open spec fn spec_restore_texture_binding(c: CacheModel, slot_index: usize) -> CacheModel {
    match c.stored_texture {
        Some(t) => CacheModel { stored_texture: None, ..spec_bind_texture(c, slot_index, t) },
        None => c,
    }
}

/// Driver calls `restore_texture_binding` issues.
pub open spec fn spec_restore_texture_binding_calls(c: CacheModel, slot_index: usize) -> Seq<
    DriverCall,
> {
    match c.stored_texture {
        Some(t) => spec_bind_texture_calls(c, slot_index, t),
        None => Seq::empty(),
    }
}

/// Cache state after clearing the first `n` texture slots.
pub open spec fn spec_clear_textures_cache(c: CacheModel, n: int) -> CacheModel
    decreases n,
{
    if n <= 0 {
        c
    } else {
        spec_bind_texture(spec_clear_textures_cache(c, n - 1), (n - 1) as usize, 0u32)
    }
}

/// Driver calls `clear_texture_bindings` issues for the first `n` slots.
pub open spec fn spec_clear_texture_calls(c: CacheModel, n: int) -> Seq<DriverCall>
    decreases n,
{
    if n <= 0 {
        Seq::empty()
    } else {
        spec_clear_texture_calls(c, n - 1) + spec_bind_texture_calls(
            spec_clear_textures_cache(c, n - 1),
            (n - 1) as usize,
            0u32,
        )
    }
}

/// Clearing texture slots touches only the texture table and the active
/// unit; every other cache field is untouched.
pub proof fn lemma_clear_textures_cache_fields(c: CacheModel, n: int)
    ensures
        spec_clear_textures_cache(c, n) == (CacheModel {
            active_texture_unit: spec_clear_textures_cache(c, n).active_texture_unit,
            textures: spec_clear_textures_cache(c, n).textures,
            ..c
        }),
    decreases n,
{
    if n > 0 {
        lemma_clear_textures_cache_fields(c, n - 1);
    }
}

impl GlCache {
    /// A cache for a freshly created context.
    pub fn new() -> (c: GlCache)
        ensures
            c@ == initial_cache(),
    {
        let mut textures: Vec<u32> = Vec::new();
        let mut i: usize = 0;
        while i < MAX_SHADERSTAGE_IMAGES
            invariant
                i <= MAX_SHADERSTAGE_IMAGES,
                textures@.len() == i,
                forall|j: int| 0 <= j < i ==> textures@[j] == 0u32,
            decreases MAX_SHADERSTAGE_IMAGES - i,
        {
            textures.push(0);
            i = i + 1;
        }
        let mut attributes: Vec<Option<CachedAttribute>> = Vec::new();
        let mut k: usize = 0;
        while k < MAX_VERTEX_ATTRIBUTES
            invariant
                k <= MAX_VERTEX_ATTRIBUTES,
                attributes@.len() == k,
                forall|j: int| 0 <= j < k ==> attributes@[j] is None,
            decreases MAX_VERTEX_ATTRIBUTES - k,
        {
            attributes.push(None);
            k = k + 1;
        }
        let c = GlCache {
            stored_index_buffer: None,
            stored_index_type: None,
            stored_vertex_buffer: None,
            stored_texture: None,
            index_buffer: 0,
            index_type: None,
            vertex_buffer: 0,
            active_texture_unit: GL_TEXTURE0,
            textures,
            cur_pipeline: None,
            color_blend: None,
            alpha_blend: None,
            stencil: None,
            color_write: (true, true, true, true),
            cull_face: CullFace::Nothing,
            attributes,
        };
        proof {
            assert(c@.textures =~= initial_cache().textures);
            assert(c@.attributes =~= initial_cache().attributes);
            assert(c@ == initial_cache());
        }
        c
    }

    /// Bind a buffer to a target, skipping the driver call when it is
    /// already bound there. For the index target the element type travels
    /// with the binding.
    pub fn bind_buffer(
        &mut self,
        d: &mut Driver,
        target: u32,
        buffer: u32,
        index_type: Option<IndexType>,
    )
        requires
            target == GL_ARRAY_BUFFER || target == GL_ELEMENT_ARRAY_BUFFER,
        ensures
            final(self)@ == spec_bind_buffer(old(self)@, target, buffer, index_type),
            final(d).calls@ == old(d).calls@ + spec_bind_buffer_calls(old(self)@, target, buffer),
            final(d).next_id == old(d).next_id,
    {
        if target == GL_ARRAY_BUFFER {
            if self.vertex_buffer != buffer {
                self.vertex_buffer = buffer;
                d.emit(DriverCall::BindBuffer { target, buffer });
            } else {
                proof {
                    assert(old(d).calls@ + spec_bind_buffer_calls(old(self)@, target, buffer)
                        =~= old(d).calls@);
                }
            }
        } else {
            if self.index_buffer != buffer {
                self.index_buffer = buffer;
                d.emit(DriverCall::BindBuffer { target, buffer });
            } else {
                proof {
                    assert(old(d).calls@ + spec_bind_buffer_calls(old(self)@, target, buffer)
                        =~= old(d).calls@);
                }
            }
            self.index_type = index_type;
        }
    }

    /// Snapshot the current binding of a target into its scratch slot.
    pub fn store_buffer_binding(&mut self, d: &mut Driver, target: u32)
        requires
            target == GL_ARRAY_BUFFER || target == GL_ELEMENT_ARRAY_BUFFER,
        ensures
            final(self)@ == spec_store_buffer_binding(old(self)@, target),
            final(d).calls@ == old(d).calls@,
            final(d).next_id == old(d).next_id,
    {
        if target == GL_ARRAY_BUFFER {
            self.stored_vertex_buffer = Some(self.vertex_buffer);
        } else {
            self.stored_index_buffer = Some(self.index_buffer);
            self.stored_index_type = self.index_type;
        }
    }

    /// Re-apply the snapshot taken by `store_buffer_binding` — a snapshot of
    /// binding 0 rebinds 0 — and clear the scratch slot. Without a snapshot
    /// this is a no-op.
    pub fn restore_buffer_binding(&mut self, d: &mut Driver, target: u32)
        requires
            target == GL_ARRAY_BUFFER || target == GL_ELEMENT_ARRAY_BUFFER,
        ensures
            final(self)@ == spec_restore_buffer_binding(old(self)@, target),
            final(d).calls@ == old(d).calls@ + spec_restore_buffer_binding_calls(
                old(self)@,
                target,
            ),
            final(d).next_id == old(d).next_id,
    {
        if target == GL_ARRAY_BUFFER {
            match self.stored_vertex_buffer {
                Some(stored) => {
                    self.bind_buffer(d, target, stored, None);
                    self.stored_vertex_buffer = None;
                },
                None => {
                    proof {
                        assert(old(d).calls@ + spec_restore_buffer_binding_calls(
                            old(self)@,
                            target,
                        ) =~= old(d).calls@);
                    }
                },
            }
        } else {
            match self.stored_index_buffer {
                Some(stored) => {
                    let stored_type = self.stored_index_type;
                    self.bind_buffer(d, target, stored, stored_type);
                    self.stored_index_buffer = None;
                    self.stored_index_type = None;
                },
                None => {
                    proof {
                        assert(old(d).calls@ + spec_restore_buffer_binding_calls(
                            old(self)@,
                            target,
                        ) =~= old(d).calls@);
                    }
                },
            }
        }
    }

    /// Bind a texture to a texture unit. When the texture is already bound
    /// there, no driver call is issued at all; otherwise the unit is
    /// activated (unless already active) and the texture bound.
    pub fn bind_texture(&mut self, d: &mut Driver, slot_index: usize, texture: u32)
        requires
            old(self)@.wf(),
            slot_index < MAX_SHADERSTAGE_IMAGES,
        ensures
            final(self)@ == spec_bind_texture(old(self)@, slot_index, texture),
            final(d).calls@ == old(d).calls@ + spec_bind_texture_calls(
                old(self)@,
                slot_index,
                texture,
            ),
            final(d).next_id == old(d).next_id,
    {
        if self.textures[slot_index] != texture {
            let unit = GL_TEXTURE0 + slot_index as u32;
            if self.active_texture_unit != unit {
                d.emit(DriverCall::ActiveTexture { unit });
                self.active_texture_unit = unit;
            }
            d.emit(DriverCall::BindTexture { target: GL_TEXTURE_2D, texture });
            self.textures.set(slot_index, texture);
            proof {
                assert(self@.textures =~= spec_bind_texture(
                    old(self)@,
                    slot_index,
                    texture,
                ).textures);
                assert(d.calls@ =~= old(d).calls@ + spec_bind_texture_calls(
                    old(self)@,
                    slot_index,
                    texture,
                ));
            }
        } else {
            proof {
                assert(old(d).calls@ + spec_bind_texture_calls(old(self)@, slot_index, texture)
                    =~= old(d).calls@);
            }
        }
    }

    /// Snapshot the binding of a texture unit into the scratch slot.
    pub fn store_texture_binding(&mut self, d: &mut Driver, slot_index: usize)
        requires
            old(self)@.wf(),
            slot_index < MAX_SHADERSTAGE_IMAGES,
        ensures
            final(self)@ == (CacheModel {
                stored_texture: Some(old(self)@.textures[slot_index as int]),
                ..old(self)@
            }),
            final(d).calls@ == old(d).calls@,
            final(d).next_id == old(d).next_id,
    {
        self.stored_texture = Some(self.textures[slot_index]);
    }

    /// Re-apply the snapshot taken by `store_texture_binding` and clear the
    /// scratch slot. Without a snapshot this is a no-op.
    pub fn restore_texture_binding(&mut self, d: &mut Driver, slot_index: usize)
        requires
            old(self)@.wf(),
            slot_index < MAX_SHADERSTAGE_IMAGES,
        ensures
            final(self)@ == spec_restore_texture_binding(old(self)@, slot_index),
            final(d).calls@ == old(d).calls@ + spec_restore_texture_binding_calls(
                old(self)@,
                slot_index,
            ),
            final(d).next_id == old(d).next_id,
    {
        match self.stored_texture {
            Some(stored) => {
                self.bind_texture(d, slot_index, stored);
                self.stored_texture = None;
            },
            None => {
                proof {
                    assert(old(d).calls@ + spec_restore_texture_binding_calls(
                        old(self)@,
                        slot_index,
                    ) =~= old(d).calls@);
                }
            },
        }
    }

    /// Force both buffer bindings to "none", giving the next frame a fully
    /// known starting state.
    pub fn clear_buffer_bindings(&mut self, d: &mut Driver)
        ensures
            final(self)@ == (CacheModel {
                vertex_buffer: 0,
                index_buffer: 0,
                index_type: None,
                ..old(self)@
            }),
            final(d).calls@ == old(d).calls@ + spec_bind_buffer_calls(
                old(self)@,
                GL_ARRAY_BUFFER,
                0,
            ) + spec_bind_buffer_calls(
                spec_bind_buffer(old(self)@, GL_ARRAY_BUFFER, 0, None),
                GL_ELEMENT_ARRAY_BUFFER,
                0,
            ),
            final(d).next_id == old(d).next_id,
    {
        self.bind_buffer(d, GL_ARRAY_BUFFER, 0, None);
        self.vertex_buffer = 0;
        self.bind_buffer(d, GL_ELEMENT_ARRAY_BUFFER, 0, None);
        self.index_buffer = 0;
    }

    /// Force every tracked texture binding to "none".
    pub fn clear_texture_bindings(&mut self, d: &mut Driver)
        requires
            old(self)@.wf(),
        ensures
            final(self)@ == spec_clear_textures_cache(old(self)@, MAX_SHADERSTAGE_IMAGES as int),
            final(self)@.textures == Seq::new(MAX_SHADERSTAGE_IMAGES as nat, |i: int| 0u32),
            final(d).calls@ == old(d).calls@ + spec_clear_texture_calls(
                old(self)@,
                MAX_SHADERSTAGE_IMAGES as int,
            ),
            final(d).next_id == old(d).next_id,
    {
        let ghost orig = self@;
        let mut ix: usize = 0;
        while ix < MAX_SHADERSTAGE_IMAGES
            invariant
                ix <= MAX_SHADERSTAGE_IMAGES,
                self@.wf(),
                self@ == spec_clear_textures_cache(orig, ix as int),
                forall|j: int| 0 <= j < ix ==> self@.textures[j] == 0u32,
                d.calls@ == old(d).calls@ + spec_clear_texture_calls(orig, ix as int),
                d.next_id == old(d).next_id,
            decreases MAX_SHADERSTAGE_IMAGES - ix,
        {
            self.bind_texture(d, ix, 0);
            ix = ix + 1;
            proof {
                assert(d.calls@ =~= old(d).calls@ + spec_clear_texture_calls(orig, ix as int));
            }
        }
        proof {
            assert(self@.textures =~= Seq::new(MAX_SHADERSTAGE_IMAGES as nat, |i: int| 0u32));
        }
    }
}

} // verus!
