use vstd::prelude::*;

use crate::cache::{
    spec_bind_buffer, spec_bind_buffer_calls, spec_bind_texture, spec_bind_texture_calls,
    spec_restore_buffer_binding, spec_restore_texture_binding, spec_store_buffer_binding,
    CacheModel,
};
use crate::driver::{
    DriverCall, GL_ARRAY_BUFFER, GL_ELEMENT_ARRAY_BUFFER, MAX_SHADERSTAGE_IMAGES,
};
use crate::pipeline::{
    spec_apply_params_calls, spec_apply_pipeline_calls, Pipeline, PipelineConf,
};
use crate::sync::{
    spec_set_blend_calls, spec_set_color_write_calls, spec_set_cull_calls, spec_set_stencil_calls,
};

verus! {

/// Law: binding a buffer is idempotent. Repeating `bind_buffer` with the
/// arguments already in effect leaves the cache exactly as it was and issues
/// zero driver calls, so the driver state is untouched too.
pub proof fn lemma_bind_buffer_idempotent(
    c: CacheModel,
    target: u32,
    buffer: u32,
    index_type: Option<crate::buffer::IndexType>,
)
    requires
        target == GL_ARRAY_BUFFER || target == GL_ELEMENT_ARRAY_BUFFER,
    ensures
        spec_bind_buffer(spec_bind_buffer(c, target, buffer, index_type), target, buffer, index_type)
            == spec_bind_buffer(c, target, buffer, index_type),
        spec_bind_buffer_calls(spec_bind_buffer(c, target, buffer, index_type), target, buffer)
            == Seq::<DriverCall>::empty(),
{
}

/// Law: binding a texture is idempotent. Repeating `bind_texture` with the
/// texture already bound to the unit leaves the cache exactly as it was and
/// issues zero driver calls, so the driver state is untouched too.
pub proof fn lemma_bind_texture_idempotent(c: CacheModel, slot_index: usize, texture: u32)
    requires
        c.wf(),
        slot_index < MAX_SHADERSTAGE_IMAGES,
    ensures
        spec_bind_texture(spec_bind_texture(c, slot_index, texture), slot_index, texture)
            == spec_bind_texture(c, slot_index, texture),
        spec_bind_texture_calls(spec_bind_texture(c, slot_index, texture), slot_index, texture)
            == Seq::<DriverCall>::empty(),
{
}

/// Law: `store` then `restore` with no intervening bind leaves the binding
/// unchanged — whatever was bound, including nothing — and clears the
/// scratch slot.
pub proof fn lemma_store_restore_buffer(c: CacheModel, target: u32)
    requires
        target == GL_ARRAY_BUFFER || target == GL_ELEMENT_ARRAY_BUFFER,
    ensures
        ({
            let r = spec_restore_buffer_binding(spec_store_buffer_binding(c, target), target);
            &&& r.vertex_buffer == c.vertex_buffer
            &&& r.index_buffer == c.index_buffer
            &&& r.index_type == c.index_type
            &&& r.textures == c.textures
            &&& r.attributes == c.attributes
            &&& (target == GL_ARRAY_BUFFER ==> r.stored_vertex_buffer is None)
            &&& (target == GL_ELEMENT_ARRAY_BUFFER ==> r.stored_index_buffer is None)
        }),
{
}

/// Law: `store`, `bind(x)`, `restore` leaves the binding as it was before
/// the store, not `x`, for every prior binding (including none).
pub proof fn lemma_store_bind_restore_buffer(
    c: CacheModel,
    target: u32,
    x: u32,
    index_type: Option<crate::buffer::IndexType>,
)
    requires
        target == GL_ARRAY_BUFFER || target == GL_ELEMENT_ARRAY_BUFFER,
    ensures
        ({
            let r = spec_restore_buffer_binding(
                spec_bind_buffer(spec_store_buffer_binding(c, target), target, x, index_type),
                target,
            );
            &&& r.vertex_buffer == c.vertex_buffer
            &&& r.index_buffer == c.index_buffer
            &&& r.index_type == c.index_type
        }),
{
}

/// Law: `store`, `bind(x)`, `restore` on a texture unit leaves the unit's
/// binding as it was before the store, not `x`, for every prior binding
/// (including none), and clears the scratch slot.
pub proof fn lemma_store_bind_restore_texture(c: CacheModel, slot_index: usize, x: u32)
    requires
        c.wf(),
        slot_index < MAX_SHADERSTAGE_IMAGES,
    ensures
        ({
            let stored = CacheModel {
                stored_texture: Some(c.textures[slot_index as int]),
                ..c
            };
            let bound = spec_bind_texture(stored, slot_index, x);
            let restored = spec_restore_texture_binding(bound, slot_index);
            &&& restored.textures =~= c.textures
            &&& restored.stored_texture is None
        }),
{
}

/// Law: applying a pipeline twice in a row is idempotent. The second
/// application leaves the cache exactly as it was and issues zero driver
/// calls — the activation prefix is elided because the cache shows the
/// pipeline already active, and every cached state setter sees its value
/// already applied — so the driver state is untouched too.
pub proof fn lemma_apply_pipeline_idempotent(
    c0: CacheModel,
    pipeline: Pipeline,
    program: u32,
    params: PipelineConf,
)
    ensures
        ({
            let c1 = spec_apply_pipeline_cache(c0, pipeline, params);
            &&& spec_apply_pipeline_cache(c1, pipeline, params) == c1
            &&& spec_apply_pipeline_calls(c1, pipeline, program, params)
                == Seq::<DriverCall>::empty()
        }),
{
    let c1 = spec_apply_pipeline_cache(c0, pipeline, params);
    let c1a = CacheModel { cur_pipeline: Some(pipeline), ..c1 };
    let c1b = CacheModel { cull_face: params.cull_face, ..c1a };
    let c1c = CacheModel {
        color_blend: params.color_blend,
        alpha_blend: params.alpha_blend,
        ..c1b
    };
    let c1d = CacheModel { stencil: params.stencil_test, ..c1c };
    assert(spec_set_cull_calls(c1a, params.cull_face) == Seq::<DriverCall>::empty());
    assert(spec_set_blend_calls(c1b, params.color_blend, params.alpha_blend)
        == Seq::<DriverCall>::empty());
    assert(spec_set_stencil_calls(c1c, params.stencil_test) == Seq::<DriverCall>::empty());
    assert(spec_set_color_write_calls(c1d, params.color_write) == Seq::<DriverCall>::empty());
    assert(spec_apply_params_calls(c1a, params) =~= Seq::<DriverCall>::empty());
    assert(spec_apply_pipeline_calls(c1, pipeline, program, params)
        =~= Seq::<DriverCall>::empty());
}

/// The cache after `apply_pipeline`.
pub open spec fn spec_apply_pipeline_cache(
    c: CacheModel,
    pipeline: Pipeline,
    params: PipelineConf,
) -> CacheModel {
    CacheModel {
        cur_pipeline: Some(pipeline),
        cull_face: params.cull_face,
        color_blend: params.color_blend,
        alpha_blend: params.alpha_blend,
        stencil: params.stencil_test,
        color_write: params.color_write,
        ..c
    }
}

} // verus!
