use vstd::prelude::*;

use crate::cache::{
    spec_bind_buffer, spec_bind_buffer_calls, spec_restore_buffer_binding,
    spec_restore_buffer_binding_calls, spec_store_buffer_binding, CacheModel,
};
use crate::context::{lemma_keeps_one, lemma_registers_kept, same_surroundings, GraphicsContext};
use crate::driver::{
    initial_driver, lemma_driver_run_append, lemma_driver_run_push, DriverCall, GL_ARRAY_BUFFER,
    GL_DYNAMIC_DRAW, GL_ELEMENT_ARRAY_BUFFER, GL_STATIC_DRAW, GL_STREAM_DRAW,
};
use crate::sync::{
    keeps_pipeline_prefix_state, lemma_bind_buffer_calls_keep, lemma_bind_buffer_sync,
    lemma_keeps_concat, lemma_neutral_step, lemma_restore_buffer_calls_keep,
    lemma_restore_buffer_sync,
};
use crate::texture::Texture;

verus! {

/// What a buffer holds: per-vertex data or draw indices.
#[derive(Debug, PartialEq, Eq, Structural, Clone, Copy)]
pub enum BufferType {
    VertexBuffer,
    IndexBuffer,
}

/// How often a buffer's contents are expected to change.
#[derive(Debug, PartialEq, Eq, Structural, Clone, Copy)]
pub enum BufferUsage {
    Immutable,
    Dynamic,
    Stream,
}

/// Driver binding target for a buffer of the given type.
pub open spec fn spec_gl_buffer_target(buffer_type: &BufferType) -> u32 {
    match buffer_type {
        BufferType::VertexBuffer => GL_ARRAY_BUFFER,
        BufferType::IndexBuffer => GL_ELEMENT_ARRAY_BUFFER,
    }
}

/// Driver binding target for a buffer of the given type.
#[verifier::when_used_as_spec(spec_gl_buffer_target)]
pub fn gl_buffer_target(buffer_type: &BufferType) -> (r: u32)
    ensures
        r == spec_gl_buffer_target(buffer_type),
{
    match buffer_type {
        BufferType::VertexBuffer => GL_ARRAY_BUFFER,
        BufferType::IndexBuffer => GL_ELEMENT_ARRAY_BUFFER,
    }
}

/// Driver usage hint for the given buffer usage.
pub open spec fn spec_gl_usage(usage: &BufferUsage) -> u32 {
    match usage {
        BufferUsage::Immutable => GL_STATIC_DRAW,
        BufferUsage::Dynamic => GL_DYNAMIC_DRAW,
        BufferUsage::Stream => GL_STREAM_DRAW,
    }
}

/// Driver usage hint for the given buffer usage.
#[verifier::when_used_as_spec(spec_gl_usage)]
pub fn gl_usage(usage: &BufferUsage) -> (r: u32)
    ensures
        r == spec_gl_usage(usage),
{
    match usage {
        BufferUsage::Immutable => GL_STATIC_DRAW,
        BufferUsage::Dynamic => GL_DYNAMIC_DRAW,
        BufferUsage::Stream => GL_STREAM_DRAW,
    }
}

/// Width of one index element in an index buffer.
#[derive(Debug, PartialEq, Eq, Structural, Clone, Copy)]
pub enum IndexType {
    Byte,
    Short,
    Int,
}

impl IndexType {
    /// The index type whose elements are values of `T`, for the supported
    /// element widths of 1, 2 and 4 bytes.
    pub fn for_type<T>() -> (r: IndexType)
        requires
            vstd::layout::size_of::<T>() == 1 || vstd::layout::size_of::<T>() == 2
                || vstd::layout::size_of::<T>() == 4,
        ensures
            vstd::layout::size_of::<T>() == 1 ==> r == IndexType::Byte,
            vstd::layout::size_of::<T>() == 2 ==> r == IndexType::Short,
            vstd::layout::size_of::<T>() == 4 ==> r == IndexType::Int,
    {
        let s = core::mem::size_of::<T>();
        if s == 1 {
            IndexType::Byte
        } else if s == 2 {
            IndexType::Short
        } else {
            IndexType::Int
        }
    }

    /// Byte width of one index element.
    pub open spec fn spec_size(&self) -> u8 {
        match self {
            IndexType::Byte => 1,
            IndexType::Short => 2,
            IndexType::Int => 4,
        }
    }

    /// Byte width of one index element.
    #[verifier::when_used_as_spec(spec_size)]
    pub fn size(&self) -> (r: u8)
        ensures
            r == self.spec_size(),
    {
        match self {
            IndexType::Byte => 1,
            IndexType::Short => 2,
            IndexType::Int => 4,
        }
    }
}

/// A driver-side buffer resource: its name, kind, byte capacity, and (for
/// index buffers) the width of its index elements.
#[derive(Debug, PartialEq, Eq, Structural, Clone, Copy)]
pub struct Buffer {
    pub gl_buf: u32,
    pub buffer_type: BufferType,
    pub size: usize,
    pub index_type: Option<IndexType>,
}

impl Buffer {
    /// Capacity of the buffer in bytes, fixed at creation.
    pub fn size(&self) -> (r: usize)
        ensures
            r == self.size,
    {
        self.size
    }
}

/// Geometry bindings: the ephemeral bundle of vertex buffers, one index
/// buffer, and textures a group of draw calls uses.
#[derive(Debug, Clone)]
pub struct Bindings {
    /// Vertex buffers. Data contained in the buffers must match the layout
    /// specified in the `Pipeline`.
    pub vertex_buffers: Vec<Buffer>,
    /// Index buffer which instructs the driver in which order to draw
    /// vertices from a vertex buffer, with each subsequent 3 indices forming
    /// a triangle.
    pub index_buffer: Buffer,
    /// Textures to be used when drawing the geometry in the fragment shader.
    pub images: Vec<Texture>,
}


/// Cache state after temporarily binding `buffer` to `target`: the previous
/// binding is stored, the buffer bound, and the snapshot re-applied —
/// whatever was bound before, including nothing.
pub open spec fn spec_temp_bind_cache(
    c: CacheModel,
    target: u32,
    buffer: u32,
    index_type: Option<IndexType>,
) -> CacheModel {
    spec_restore_buffer_binding(
        spec_bind_buffer(spec_store_buffer_binding(c, target), target, buffer, index_type),
        target,
    )
}

impl Buffer {
    /// Allocate a driver buffer, upload its initial contents, and restore
    /// whatever binding the caller had, via the store/restore discipline.
    /// The payload bytes accompany the upload call on the embedder's side.
    #[verifier::rlimit(100)]
    #[verifier::spinoff_prover]
    fn create(
        ctx: &mut GraphicsContext,
        buffer_type: BufferType,
        usage: BufferUsage,
        size: usize,
        upload: bool,
        index_type: Option<IndexType>,
        bind_index_type: Option<IndexType>,
    ) -> (r: Buffer)
        requires
            old(ctx).wf(),
            old(ctx).driver.next_id < u32::MAX,
        ensures
            final(ctx).wf(),
            r.gl_buf == old(ctx).driver.next_id,
            r.buffer_type == buffer_type,
            r.size == size,
            r.index_type == index_type,
            final(ctx).cache@ == spec_temp_bind_cache(
                old(ctx).cache@,
                spec_gl_buffer_target(&buffer_type),
                old(ctx).driver.next_id,
                bind_index_type,
            ),
            final(ctx).driver.calls@ == old(ctx).driver.calls@ + seq![
                DriverCall::GenBuffer { buffer: old(ctx).driver.next_id },
            ] + spec_bind_buffer_calls(
                spec_store_buffer_binding(old(ctx).cache@, spec_gl_buffer_target(&buffer_type)),
                spec_gl_buffer_target(&buffer_type),
                old(ctx).driver.next_id,
            ) + seq![
                DriverCall::BufferData {
                    target: spec_gl_buffer_target(&buffer_type),
                    size: size,
                    usage: spec_gl_usage(&usage),
                },
            ] + (if upload {
                seq![
                    DriverCall::BufferSubData {
                        target: spec_gl_buffer_target(&buffer_type),
                        offset: 0,
                        size: size,
                    },
                ]
            } else {
                Seq::empty()
            }) + spec_restore_buffer_binding_calls(
                spec_bind_buffer(
                    spec_store_buffer_binding(old(ctx).cache@, spec_gl_buffer_target(&buffer_type)),
                    spec_gl_buffer_target(&buffer_type),
                    old(ctx).driver.next_id,
                    bind_index_type,
                ),
                spec_gl_buffer_target(&buffer_type),
            ),
            final(ctx).driver.next_id == old(ctx).driver.next_id + 1,
            same_surroundings(*old(ctx), *final(ctx)),
    {
        let ghost c0 = ctx.cache@;
        let ghost inst = ctx.features.instancing;
        let ghost init = initial_driver(ctx.default_framebuffer);
        let gl_target = gl_buffer_target(&buffer_type);
        let gl_usage_v = gl_usage(&usage);
        let gl_buf = ctx.driver.alloc_id();
        let ghost d0 = ctx.replayed();
        let gen = DriverCall::GenBuffer { buffer: gl_buf };
        ctx.driver.emit(gen);
        proof {
            lemma_driver_run_push(init, old(ctx).driver.calls@, gen);
            lemma_neutral_step(ctx.cache@, d0, gen, inst);
        }
        ctx.cache.store_buffer_binding(&mut ctx.driver, gl_target);
        let ghost c1 = ctx.cache@;
        let ghost d1 = ctx.replayed();
        let ghost calls1 = ctx.driver.calls@;
        ctx.cache.bind_buffer(&mut ctx.driver, gl_target, gl_buf, bind_index_type);
        proof {
            lemma_driver_run_append(init, calls1, spec_bind_buffer_calls(c1, gl_target, gl_buf));
            lemma_bind_buffer_sync(c1, d1, gl_target, gl_buf, bind_index_type, inst);
        }
        let ghost calls2 = ctx.driver.calls@;
        let ghost d2 = ctx.replayed();
        let bd = DriverCall::BufferData { target: gl_target, size: size, usage: gl_usage_v };
        ctx.driver.emit(bd);
        proof {
            lemma_driver_run_push(init, calls2, bd);
            lemma_neutral_step(ctx.cache@, d2, bd, inst);
        }
        if upload {
            let ghost calls3 = ctx.driver.calls@;
            let ghost d3 = ctx.replayed();
            let sd = DriverCall::BufferSubData { target: gl_target, offset: 0, size: size };
            ctx.driver.emit(sd);
            proof {
                lemma_driver_run_push(init, calls3, sd);
                lemma_neutral_step(ctx.cache@, d3, sd, inst);
            }
        }
        let ghost c2 = ctx.cache@;
        let ghost d4 = ctx.replayed();
        let ghost calls4 = ctx.driver.calls@;
        ctx.cache.restore_buffer_binding(&mut ctx.driver, gl_target);
        proof {
            lemma_driver_run_append(
                init,
                calls4,
                spec_restore_buffer_binding_calls(c2, gl_target),
            );
            lemma_restore_buffer_sync(c2, d4, gl_target, inst);
            let up: Seq<DriverCall> = if upload {
                seq![DriverCall::BufferSubData { target: gl_target, offset: 0, size: size }]
            } else {
                Seq::empty()
            };
            assert(ctx.driver.calls@ =~= old(ctx).driver.calls@ + seq![gen]
                + spec_bind_buffer_calls(c1, gl_target, gl_buf) + seq![bd] + up
                + spec_restore_buffer_binding_calls(c2, gl_target));
            lemma_keeps_one(gen);
            lemma_bind_buffer_calls_keep(c1, gl_target, gl_buf);
            lemma_keeps_one(bd);
            assert(forall|i: int|
                0 <= i < up.len() ==> keeps_pipeline_prefix_state(#[trigger] up[i]));
            lemma_restore_buffer_calls_keep(c2, gl_target);
            let e1 = seq![gen] + spec_bind_buffer_calls(c1, gl_target, gl_buf);
            lemma_keeps_concat(seq![gen], spec_bind_buffer_calls(c1, gl_target, gl_buf));
            lemma_keeps_concat(e1, seq![bd]);
            lemma_keeps_concat(e1 + seq![bd], up);
            lemma_keeps_concat(e1 + seq![bd] + up, spec_restore_buffer_binding_calls(c2, gl_target));
            lemma_registers_kept(
                init,
                old(ctx).driver.calls@,
                e1 + seq![bd] + up + spec_restore_buffer_binding_calls(c2, gl_target),
            );
            assert(old(ctx).driver.calls@ + e1 + seq![bd] + up
                + spec_restore_buffer_binding_calls(c2, gl_target) =~= old(ctx).driver.calls@ + (e1
                + seq![bd] + up + spec_restore_buffer_binding_calls(c2, gl_target)));
            assert(crate::sync::in_sync(ctx.cache@, ctx.replayed(), inst));
            assert(ctx.cache@.cur_pipeline == old(ctx).cache@.cur_pipeline);
            assert(ctx.driver.calls@ == old(ctx).driver.calls@ + (e1 + seq![bd] + up
                + spec_restore_buffer_binding_calls(c2, gl_target)));
            assert(ctx.replayed() == crate::driver::driver_run(
                init,
                old(ctx).driver.calls@ + (e1 + seq![bd] + up + spec_restore_buffer_binding_calls(
                    c2,
                    gl_target,
                )),
            ));
            assert(ctx.replayed().program == old(ctx).replayed().program);
            assert(ctx.pipeline_state_ok());
        }
        Buffer { gl_buf, buffer_type, size, index_type }
    }

    /// Create an immutable buffer resource holding `data`. An index buffer
    /// carries the width of its index elements.
    pub fn immutable(
        ctx: &mut GraphicsContext,
        buffer_type: BufferType,
        data: &Vec<u8>,
        index_type: Option<IndexType>,
    ) -> (r: Buffer)
        requires
            old(ctx).wf(),
            old(ctx).driver.next_id < u32::MAX,
            (buffer_type == BufferType::IndexBuffer) <==> (index_type is Some),
        ensures
            final(ctx).wf(),
            r.gl_buf == old(ctx).driver.next_id,
            r.buffer_type == buffer_type,
            r.size == data@.len(),
            r.index_type == index_type,
            final(ctx).cache@ == spec_temp_bind_cache(
                old(ctx).cache@,
                spec_gl_buffer_target(&buffer_type),
                old(ctx).driver.next_id,
                index_type,
            ),
            final(ctx).driver.calls@ == old(ctx).driver.calls@ + seq![
                DriverCall::GenBuffer { buffer: old(ctx).driver.next_id },
            ] + spec_bind_buffer_calls(
                spec_store_buffer_binding(old(ctx).cache@, spec_gl_buffer_target(&buffer_type)),
                spec_gl_buffer_target(&buffer_type),
                old(ctx).driver.next_id,
            ) + seq![
                DriverCall::BufferData {
                    target: spec_gl_buffer_target(&buffer_type),
                    size: data@.len() as usize,
                    usage: spec_gl_usage(&BufferUsage::Immutable),
                },
            ] + seq![
                DriverCall::BufferSubData {
                    target: spec_gl_buffer_target(&buffer_type),
                    offset: 0,
                    size: data@.len() as usize,
                },
            ] + spec_restore_buffer_binding_calls(
                spec_bind_buffer(
                    spec_store_buffer_binding(old(ctx).cache@, spec_gl_buffer_target(&buffer_type)),
                    spec_gl_buffer_target(&buffer_type),
                    old(ctx).driver.next_id,
                    index_type,
                ),
                spec_gl_buffer_target(&buffer_type),
            ),
            final(ctx).driver.next_id == old(ctx).driver.next_id + 1,
            same_surroundings(*old(ctx), *final(ctx)),
    {
        Self::create(
            ctx,
            buffer_type,
            BufferUsage::Immutable,
            data.len(),
            true,
            index_type,
            index_type,
        )
    }

    /// Create a stream buffer of the given byte capacity, with no initial
    /// contents. A stream index buffer defaults to 16-bit indices.
    pub fn stream(ctx: &mut GraphicsContext, buffer_type: BufferType, size: usize) -> (r: Buffer)
        requires
            old(ctx).wf(),
            old(ctx).driver.next_id < u32::MAX,
        ensures
            final(ctx).wf(),
            r.gl_buf == old(ctx).driver.next_id,
            r.buffer_type == buffer_type,
            r.size == size,
            r.index_type == (if buffer_type == BufferType::IndexBuffer {
                Some(IndexType::Short)
            } else {
                None
            }),
            final(ctx).cache@ == spec_temp_bind_cache(
                old(ctx).cache@,
                spec_gl_buffer_target(&buffer_type),
                old(ctx).driver.next_id,
                None,
            ),
            final(ctx).driver.calls@ == old(ctx).driver.calls@ + seq![
                DriverCall::GenBuffer { buffer: old(ctx).driver.next_id },
            ] + spec_bind_buffer_calls(
                spec_store_buffer_binding(old(ctx).cache@, spec_gl_buffer_target(&buffer_type)),
                spec_gl_buffer_target(&buffer_type),
                old(ctx).driver.next_id,
            ) + seq![
                DriverCall::BufferData {
                    target: spec_gl_buffer_target(&buffer_type),
                    size: size,
                    usage: spec_gl_usage(&BufferUsage::Stream),
                },
            ] + Seq::empty() + spec_restore_buffer_binding_calls(
                spec_bind_buffer(
                    spec_store_buffer_binding(old(ctx).cache@, spec_gl_buffer_target(&buffer_type)),
                    spec_gl_buffer_target(&buffer_type),
                    old(ctx).driver.next_id,
                    None,
                ),
                spec_gl_buffer_target(&buffer_type),
            ),
            final(ctx).driver.next_id == old(ctx).driver.next_id + 1,
            same_surroundings(*old(ctx), *final(ctx)),
    {
        let index_type = if buffer_type == BufferType::IndexBuffer {
            Some(IndexType::Short)
        } else {
            None
        };
        Self::create(ctx, buffer_type, BufferUsage::Stream, size, false, index_type, None)
    }

    /// Create a stream index buffer with an explicit index element width.
    pub fn index_stream(ctx: &mut GraphicsContext, index_type: IndexType, size: usize) -> (r:
        Buffer)
        requires
            old(ctx).wf(),
            old(ctx).driver.next_id < u32::MAX,
        ensures
            final(ctx).wf(),
            r.gl_buf == old(ctx).driver.next_id,
            r.buffer_type == BufferType::IndexBuffer,
            r.size == size,
            r.index_type == Some(index_type),
            final(ctx).cache@ == spec_temp_bind_cache(
                old(ctx).cache@,
                GL_ELEMENT_ARRAY_BUFFER,
                old(ctx).driver.next_id,
                None,
            ),
            final(ctx).driver.next_id == old(ctx).driver.next_id + 1,
            same_surroundings(*old(ctx), *final(ctx)),
    {
        Self::create(
            ctx,
            BufferType::IndexBuffer,
            BufferUsage::Stream,
            size,
            false,
            Some(index_type),
            None,
        )
    }

    /// Overwrite the buffer's contents from the start. The payload must not
    /// exceed the byte capacity the buffer was created with; the capacity
    /// itself never changes. The payload bytes accompany the upload call on
    /// the embedder's side.
    #[verifier::rlimit(100)]
    #[verifier::spinoff_prover]
    pub fn update(&self, ctx: &mut GraphicsContext, data: &Vec<u8>)
        requires
            old(ctx).wf(),
            data@.len() <= self.size,
            self.buffer_type == BufferType::IndexBuffer ==> self.index_type is Some,
        ensures
            final(ctx).wf(),
            final(ctx).cache@ == spec_temp_bind_cache(
                old(ctx).cache@,
                spec_gl_buffer_target(&self.buffer_type),
                self.gl_buf,
                self.index_type,
            ),
            final(ctx).driver.calls@ == old(ctx).driver.calls@ + spec_bind_buffer_calls(
                spec_store_buffer_binding(
                    old(ctx).cache@,
                    spec_gl_buffer_target(&self.buffer_type),
                ),
                spec_gl_buffer_target(&self.buffer_type),
                self.gl_buf,
            ) + seq![
                DriverCall::BufferSubData {
                    target: spec_gl_buffer_target(&self.buffer_type),
                    offset: 0,
                    size: data@.len() as usize,
                },
            ] + spec_restore_buffer_binding_calls(
                spec_bind_buffer(
                    spec_store_buffer_binding(
                        old(ctx).cache@,
                        spec_gl_buffer_target(&self.buffer_type),
                    ),
                    spec_gl_buffer_target(&self.buffer_type),
                    self.gl_buf,
                    self.index_type,
                ),
                spec_gl_buffer_target(&self.buffer_type),
            ),
            final(ctx).driver.next_id == old(ctx).driver.next_id,
            same_surroundings(*old(ctx), *final(ctx)),
    {
        let ghost inst = ctx.features.instancing;
        let ghost init = initial_driver(ctx.default_framebuffer);
        let size = data.len();
        let gl_target = gl_buffer_target(&self.buffer_type);
        ctx.cache.store_buffer_binding(&mut ctx.driver, gl_target);
        let ghost c1 = ctx.cache@;
        let ghost d1 = ctx.replayed();
        let ghost calls1 = ctx.driver.calls@;
        ctx.cache.bind_buffer(&mut ctx.driver, gl_target, self.gl_buf, self.index_type);
        proof {
            lemma_driver_run_append(
                init,
                calls1,
                spec_bind_buffer_calls(c1, gl_target, self.gl_buf),
            );
            lemma_bind_buffer_sync(c1, d1, gl_target, self.gl_buf, self.index_type, inst);
        }
        let ghost calls2 = ctx.driver.calls@;
        let ghost d2 = ctx.replayed();
        let sd = DriverCall::BufferSubData { target: gl_target, offset: 0, size: size };
        ctx.driver.emit(sd);
        proof {
            lemma_driver_run_push(init, calls2, sd);
            lemma_neutral_step(ctx.cache@, d2, sd, inst);
        }
        let ghost c2 = ctx.cache@;
        let ghost d3 = ctx.replayed();
        let ghost calls3 = ctx.driver.calls@;
        ctx.cache.restore_buffer_binding(&mut ctx.driver, gl_target);
        proof {
            lemma_driver_run_append(
                init,
                calls3,
                spec_restore_buffer_binding_calls(c2, gl_target),
            );
            lemma_restore_buffer_sync(c2, d3, gl_target, inst);
            assert(ctx.driver.calls@ =~= old(ctx).driver.calls@ + spec_bind_buffer_calls(
                c1,
                gl_target,
                self.gl_buf,
            ) + seq![sd] + spec_restore_buffer_binding_calls(c2, gl_target));
            let a = spec_bind_buffer_calls(c1, gl_target, self.gl_buf);
            let r = spec_restore_buffer_binding_calls(c2, gl_target);
            lemma_bind_buffer_calls_keep(c1, gl_target, self.gl_buf);
            lemma_keeps_one(sd);
            lemma_restore_buffer_calls_keep(c2, gl_target);
            lemma_keeps_concat(a, seq![sd]);
            lemma_keeps_concat(a + seq![sd], r);
            lemma_registers_kept(init, old(ctx).driver.calls@, a + seq![sd] + r);
            assert(old(ctx).driver.calls@ + a + seq![sd] + r =~= old(ctx).driver.calls@ + (a
                + seq![sd] + r));
        }
    }

    /// Release the driver-side buffer. The handle must not be used after.
    pub fn delete(&self, ctx: &mut GraphicsContext)
        requires
            old(ctx).wf(),
        ensures
            final(ctx).wf(),
            final(ctx).cache@ == old(ctx).cache@,
            final(ctx).driver.calls@ == old(ctx).driver.calls@.push(
                DriverCall::DeleteBuffer { buffer: self.gl_buf },
            ),
            final(ctx).driver.next_id == old(ctx).driver.next_id,
            same_surroundings(*old(ctx), *final(ctx)),
    {
        let ghost init = initial_driver(ctx.default_framebuffer);
        let ghost d0 = ctx.replayed();
        let del = DriverCall::DeleteBuffer { buffer: self.gl_buf };
        ctx.driver.emit(del);
        proof {
            lemma_driver_run_push(init, old(ctx).driver.calls@, del);
            lemma_neutral_step(ctx.cache@, d0, del, ctx.features.instancing);
            lemma_keeps_one(del);
            assert(ctx.driver.calls@ =~= old(ctx).driver.calls@ + seq![del]);
            lemma_registers_kept(init, old(ctx).driver.calls@, seq![del]);
        }
    }
}

} // verus!
