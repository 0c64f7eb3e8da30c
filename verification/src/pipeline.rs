use vstd::prelude::*;

use crate::blend::BlendState;
use crate::cache::CacheModel;
use crate::context::{same_surroundings, ColorMask, GraphicsContext};
use crate::driver::{
    driver_run, initial_driver, lemma_driver_run_append, lemma_driver_run_one,
    lemma_driver_run_two, DriverCall, DriverModel, GL_CCW, GL_CW, GL_DEPTH_TEST, GL_SCISSOR_TEST,
};
use crate::shader::Shader;
use crate::stencil::StencilState;
use crate::sync::{
    lemma_neutral_run, neutral_call, spec_set_blend_calls, spec_set_color_write_calls,
    spec_set_cull_calls, spec_set_stencil_calls,
};
use crate::tables::{gl_comparison, spec_gl_comparison};
use crate::vertex::{BufferLayout, VertexAttribute, VertexFormat, VertexStep};

verus! {

/// Geometric primitive a draw call assembles from its vertices.
#[derive(Debug, PartialEq, Eq, Structural, Clone, Copy)]
pub enum PrimitiveType {
    Triangles,
    TriangleStrip,
    Lines,
    LineStrip,
}

/// A pixel-wise comparison function.
#[derive(Debug, PartialEq, Eq, Structural, Clone, Copy)]
pub enum Comparison {
    Never,
    Less,
    LessOrEqual,
    Greater,
    GreaterOrEqual,
    Equal,
    NotEqual,
    Always,
}

/// Specify whether front- or back-facing polygons can be culled.
#[derive(Debug, PartialEq, Eq, Structural, Clone, Copy)]
pub enum CullFace {
    Nothing,
    Front,
    Back,
}

/// Define front- and back-facing polygons.
#[derive(Debug, PartialEq, Eq, Structural, Clone, Copy)]
pub enum FrontFaceOrder {
    Clockwise,
    CounterClockwise,
}

/// Rasterization, depth, blend, stencil and color-write configuration of a
/// pipeline.
#[derive(Debug, Clone, Copy)]
pub struct PipelineConf {
    pub cull_face: CullFace,
    pub front_face_order: FrontFaceOrder,
    pub depth_test: Comparison,
    pub depth_write: bool,
    /// Color (RGB) blend function. If `None`, blending is disabled for this
    /// pipeline.
    pub color_blend: Option<BlendState>,
    /// Alpha blend function. If `None`, alpha is blended with the same
    /// equation as the RGB colors.
    pub alpha_blend: Option<BlendState>,
    pub stencil_test: Option<StencilState>,
    pub color_write: ColorMask,
    pub primitive_type: PrimitiveType,
}

impl Default for PipelineConf {
    fn default() -> (r: PipelineConf)
        ensures
            r.cull_face == CullFace::Nothing,
            r.front_face_order == FrontFaceOrder::CounterClockwise,
            r.depth_test == Comparison::Always,
            r.depth_write == false,
            r.color_blend is None,
            r.alpha_blend is None,
            r.stencil_test is None,
            r.color_write == (true, true, true, true),
            r.primitive_type == PrimitiveType::Triangles,
    {
        PipelineConf {
            cull_face: CullFace::Nothing,
            front_face_order: FrontFaceOrder::CounterClockwise,
            depth_test: Comparison::Always,  // no depth test
            depth_write: false,  // no depth write
            color_blend: None,
            alpha_blend: None,
            stencil_test: None,
            color_write: (true, true, true, true),
            primitive_type: PrimitiveType::Triangles,
        }
    }
}

/// One compiled vertex attribute slot entry: everything a pointer call needs.
#[derive(Debug, PartialEq, Eq, Structural, Clone, Copy)]
pub struct VertexAttributeInternal {
    pub attr_loc: u32,
    pub size: i32,
    pub type_: u32,
    pub offset: i64,
    pub stride: i32,
    pub buffer_index: usize,
    pub divisor: i32,
}

/// A compiled pipeline held by the context: the fixed attribute-slot table,
/// the shader it was compiled against, and its state configuration.
#[derive(Debug, Clone)]
pub struct PipelineInternal {
    pub layout: Vec<Option<VertexAttributeInternal>>,
    pub shader: Shader,
    pub params: PipelineConf,
}

/// Handle to a compiled pipeline owned by a context.
#[derive(Debug, PartialEq, Eq, Structural, Clone, Copy)]
pub struct Pipeline(pub usize);


/// Number of attribute slots one declared attribute consumes: a 4x4 matrix
/// splits into four consecutive vector slots.
pub open spec fn slots_of(f: VertexFormat) -> int {
    if f == VertexFormat::Mat4 {
        4
    } else {
        1
    }
}

/// The per-slot format an attribute expands to.
pub open spec fn effective_format(f: VertexFormat) -> VertexFormat {
    if f == VertexFormat::Mat4 {
        VertexFormat::Float4
    } else {
        f
    }
}

/// Length of the compiled attribute table: the total slot count of the first
/// `k` declared attributes.
pub open spec fn table_len(attrs: Seq<VertexAttribute>, k: int) -> int
    decreases k,
{
    if k <= 0 {
        0
    } else {
        table_len(attrs, k - 1) + slots_of(attrs[k - 1].format)
    }
}

/// Stride of buffer `b` after the first `k` attributes are accumulated: a
/// declared stride of 0 sums the byte lengths of the attributes assigned to
/// the buffer, in declaration order; a nonzero declared stride is
/// authoritative.
pub open spec fn stride_after(
    buffers: Seq<BufferLayout>,
    attrs: Seq<VertexAttribute>,
    b: int,
    k: int,
) -> int
    decreases k,
{
    if k <= 0 {
        0
    } else {
        let prev = stride_after(buffers, attrs, b, k - 1);
        if attrs[k - 1].buffer_index == b {
            if buffers[b].stride == 0 {
                prev + attrs[k - 1].format.spec_byte_len()
            } else {
                buffers[b].stride as int
            }
        } else {
            prev
        }
    }
}

/// Byte offset within buffer `b` at which attribute `k`'s data starts: the
/// byte lengths of all earlier attributes assigned to the same buffer,
/// whether or not their locations resolved.
pub open spec fn offset_before(attrs: Seq<VertexAttribute>, b: int, k: int) -> int
    decreases k,
{
    if k <= 0 {
        0
    } else {
        offset_before(attrs, b, k - 1) + (if attrs[k - 1].buffer_index == b {
            attrs[k - 1].format.spec_byte_len() as int
        } else {
            0
        })
    }
}

/// Offsets only grow as more attributes are accumulated.
pub proof fn lemma_offset_before_mono(attrs: Seq<VertexAttribute>, b: int, k1: int, k2: int)
    requires
        0 <= k1 <= k2,
    ensures
        offset_before(attrs, b, k1) <= offset_before(attrs, b, k2),
    decreases k2,
{
    if k1 < k2 {
        lemma_offset_before_mono(attrs, b, k1, k2 - 1);
    }
}

/// Instancing divisor of a buffer: 0 for per-vertex data, the declared step
/// rate for per-instance data.
pub open spec fn spec_divisor(layout: BufferLayout) -> i32 {
    if layout.step_func == VertexStep::PerVertex {
        0
    } else {
        layout.step_rate
    }
}

/// The table entry written for expansion step `e` of attribute `k`.
pub open spec fn expanded_entry(
    buffers: Seq<BufferLayout>,
    attrs: Seq<VertexAttribute>,
    k: int,
    loc: u32,
    e: int,
) -> VertexAttributeInternal {
    let a = attrs[k];
    let eff = effective_format(a.format);
    VertexAttributeInternal {
        attr_loc: (loc + e) as u32,
        size: eff.spec_size(),
        type_: eff.spec_type_(),
        offset: (offset_before(attrs, a.buffer_index as int, k) + e * eff.spec_byte_len()) as i64,
        stride: stride_after(buffers, attrs, a.buffer_index as int, attrs.len() as int) as i32,
        buffer_index: a.buffer_index,
        divisor: spec_divisor(buffers[a.buffer_index as int]),
    }
}

/// Write the first `e` expansion entries of attribute `k` into the table.
pub open spec fn expand_attr(
    prev: Seq<Option<VertexAttributeInternal>>,
    buffers: Seq<BufferLayout>,
    attrs: Seq<VertexAttribute>,
    k: int,
    loc: u32,
    e: int,
) -> Seq<Option<VertexAttributeInternal>>
    decreases e,
{
    if e <= 0 {
        prev
    } else {
        expand_attr(prev, buffers, attrs, k, loc, e - 1).update(
            loc + e - 1,
            Some(expanded_entry(buffers, attrs, k, loc, e - 1)),
        )
    }
}

/// The compiled attribute table after the first `k` attributes: each
/// attribute whose location resolved occupies its expansion slots; one whose
/// location did not resolve is dropped, though its byte offset still
/// advanced.
pub open spec fn compiled_layout(
    buffers: Seq<BufferLayout>,
    attrs: Seq<VertexAttribute>,
    locs: Seq<Option<u32>>,
    k: int,
) -> Seq<Option<VertexAttributeInternal>>
    decreases k,
{
    if k <= 0 {
        Seq::new(table_len(attrs, attrs.len() as int) as nat, |i: int| None)
    } else {
        let prev = compiled_layout(buffers, attrs, locs, k - 1);
        match locs[k - 1] {
            Some(loc) => expand_attr(prev, buffers, attrs, k - 1, loc, slots_of(attrs[k - 1].format)),
            None => prev,
        }
    }
}

/// Inputs on which the pipeline compiler succeeds: every attribute names a
/// declared buffer, every accumulated stride stays within the platform's
/// 255-byte ceiling, every resolved location's expansion fits the table, and
/// the accumulated offsets and the table size stay within machine bounds.
pub open spec fn pipeline_inputs_ok(
    buffers: Seq<BufferLayout>,
    attrs: Seq<VertexAttribute>,
    locs: Seq<Option<u32>>,
) -> bool {
    &&& locs.len() == attrs.len()
    &&& forall|i: int| 0 <= i < attrs.len() ==> (#[trigger] attrs[i]).buffer_index < buffers.len()
    &&& forall|k: int|
        1 <= k <= attrs.len() ==> #[trigger] stride_after(
            buffers,
            attrs,
            attrs[k - 1].buffer_index as int,
            k,
        ) <= 255
    &&& forall|i: int|
        0 <= i < attrs.len() ==> match #[trigger] locs[i] {
            Some(loc) => loc + slots_of(attrs[i].format) <= table_len(attrs, attrs.len() as int),
            None => true,
        }
    &&& forall|b: int|
        0 <= b < buffers.len() ==> offset_before(attrs, b, attrs.len() as int) <= i64::MAX
    &&& 4 * attrs.len() <= usize::MAX
    &&& table_len(attrs, attrs.len() as int) <= u32::MAX
}

impl Pipeline {
    /// Compile a pipeline with default state configuration.
    ///
    /// `attr_locations` carries the driver's resolution of each attribute
    /// name against the shader's program, in declaration order, `None` where
    /// the variable was optimized out.
    pub fn new(
        ctx: &mut GraphicsContext,
        buffer_layout: &Vec<BufferLayout>,
        attributes: &Vec<VertexAttribute>,
        shader: Shader,
        attr_locations: &Vec<Option<u32>>,
    ) -> (r: Pipeline)
        requires
            old(ctx).wf(),
            shader.0 < old(ctx).shaders@.len(),
            pipeline_inputs_ok(buffer_layout@, attributes@, attr_locations@),
        ensures
            final(ctx).wf(),
            r == Pipeline(old(ctx).pipelines@.len() as usize),
            final(ctx).pipelines@.len() == old(ctx).pipelines@.len() + 1,
            forall|i: int|
                0 <= i < old(ctx).pipelines@.len() ==> final(ctx).pipelines@[i] == old(
                    ctx,
                ).pipelines@[i],
            final(ctx).pipelines@[old(ctx).pipelines@.len() as int].layout@ == compiled_layout(
                buffer_layout@,
                attributes@,
                attr_locations@,
                attributes@.len() as int,
            ),
            final(ctx).pipelines@[old(ctx).pipelines@.len() as int].shader == shader,
            final(ctx).pipelines@[old(ctx).pipelines@.len() as int].params
                == PipelineConf::spec_default(),
            final(ctx).shaders == old(ctx).shaders,
            final(ctx).passes == old(ctx).passes,
            final(ctx).cache@ == old(ctx).cache@,
            final(ctx).driver.calls@ == old(ctx).driver.calls@,
            final(ctx).driver.next_id == old(ctx).driver.next_id,
            final(ctx).features == old(ctx).features,
            final(ctx).default_framebuffer == old(ctx).default_framebuffer,
            final(ctx).screen_width == old(ctx).screen_width,
            final(ctx).screen_height == old(ctx).screen_height,
    {
        Self::with_params(ctx, buffer_layout, attributes, shader, Default::default(), attr_locations)
    }

    /// Compile the declarative buffer layouts and attributes against a
    /// shader into the fixed per-slot attribute table, with explicit state
    /// configuration.
    ///
    /// For each buffer, a running byte offset accumulates in declaration
    /// order, and the stride is either declared or computed as the sum of
    /// its attributes' byte lengths. A 4x4 matrix attribute expands into
    /// four consecutive slots. An attribute whose location did not resolve
    /// is dropped silently, its offset still advancing so later attributes
    /// stay correctly spaced.
    #[verifier::rlimit(100)]
    #[verifier::spinoff_prover]
    pub fn with_params(
        ctx: &mut GraphicsContext,
        buffer_layout: &Vec<BufferLayout>,
        attributes: &Vec<VertexAttribute>,
        shader: Shader,
        params: PipelineConf,
        attr_locations: &Vec<Option<u32>>,
    ) -> (r: Pipeline)
        requires
            old(ctx).wf(),
            shader.0 < old(ctx).shaders@.len(),
            pipeline_inputs_ok(buffer_layout@, attributes@, attr_locations@),
        ensures
            final(ctx).wf(),
            r == Pipeline(old(ctx).pipelines@.len() as usize),
            final(ctx).pipelines@.len() == old(ctx).pipelines@.len() + 1,
            forall|i: int|
                0 <= i < old(ctx).pipelines@.len() ==> final(ctx).pipelines@[i] == old(
                    ctx,
                ).pipelines@[i],
            final(ctx).pipelines@[old(ctx).pipelines@.len() as int].layout@ == compiled_layout(
                buffer_layout@,
                attributes@,
                attr_locations@,
                attributes@.len() as int,
            ),
            final(ctx).pipelines@[old(ctx).pipelines@.len() as int].shader == shader,
            final(ctx).pipelines@[old(ctx).pipelines@.len() as int].params == params,
            final(ctx).shaders == old(ctx).shaders,
            final(ctx).passes == old(ctx).passes,
            final(ctx).cache@ == old(ctx).cache@,
            final(ctx).driver.calls@ == old(ctx).driver.calls@,
            final(ctx).driver.next_id == old(ctx).driver.next_id,
            final(ctx).features == old(ctx).features,
            final(ctx).default_framebuffer == old(ctx).default_framebuffer,
            final(ctx).screen_width == old(ctx).screen_width,
            final(ctx).screen_height == old(ctx).screen_height,
    {
        let ghost buffers = buffer_layout@;
        let ghost attrs = attributes@;
        let ghost locs = attr_locations@;
        let nbuf = buffer_layout.len();
        let nattr = attributes.len();

        // Accumulate per-buffer strides.
        let mut strides: Vec<i32> = Vec::new();
        let mut z: usize = 0;
        while z < nbuf
            invariant
                z <= nbuf,
                strides@.len() == z,
                forall|b: int| 0 <= b < z ==> strides@[b] == 0i32,
            decreases nbuf - z,
        {
            strides.push(0);
            z = z + 1;
        }
        let mut k: usize = 0;
        while k < nattr
            invariant
                k <= nattr,
                nattr == attrs.len(),
                nbuf == buffers.len(),
                buffers == buffer_layout@,
                attrs == attributes@,
                pipeline_inputs_ok(buffers, attrs, locs),
                strides@.len() == nbuf,
                forall|b: int| 0 <= b < nbuf ==> strides@[b] == stride_after(buffers, attrs, b, k as int),
                forall|b: int|
                    0 <= b < nbuf && buffers[b].stride == 0 ==> 0 <= stride_after(
                        buffers,
                        attrs,
                        b,
                        k as int,
                    ) <= 255,
            decreases nattr - k,
        {
            let a = attributes[k];
            let b = a.buffer_index;
            proof {
                assert(attrs[k as int].buffer_index < buffers.len());
                assert(stride_after(buffers, attrs, b as int, k as int + 1) <= 255);
            }
            if buffer_layout[b].stride == 0 {
                let ns = strides[b] + a.format.byte_len();
                strides.set(b, ns);
            } else {
                strides.set(b, buffer_layout[b].stride);
            }
            k = k + 1;
        }

        // Size the output table.
        let mut attributes_len: usize = 0;
        let mut t: usize = 0;
        while t < nattr
            invariant
                t <= nattr,
                nattr == attrs.len(),
                attrs == attributes@,
                pipeline_inputs_ok(buffers, attrs, locs),
                attributes_len == table_len(attrs, t as int),
                attributes_len <= 4 * t,
            decreases nattr - t,
        {
            let a = attributes[t];
            let step: usize = match a.format {
                VertexFormat::Mat4 => 4,
                _ => 1,
            };
            attributes_len = attributes_len + step;
            t = t + 1;
        }
        let mut vertex_layout: Vec<Option<VertexAttributeInternal>> = Vec::new();
        let mut v: usize = 0;
        while v < attributes_len
            invariant
                v <= attributes_len,
                vertex_layout@.len() == v,
                forall|i: int| 0 <= i < v ==> vertex_layout@[i] is None,
            decreases attributes_len - v,
        {
            vertex_layout.push(None);
            v = v + 1;
        }
        proof {
            assert(vertex_layout@ =~= compiled_layout(buffers, attrs, locs, 0));
        }

        // Resolve each attribute into its expansion slots.
        let mut offsets: Vec<i64> = Vec::new();
        let mut w: usize = 0;
        while w < nbuf
            invariant
                w <= nbuf,
                offsets@.len() == w,
                forall|b: int| 0 <= b < w ==> offsets@[b] == 0i64,
            decreases nbuf - w,
        {
            offsets.push(0);
            w = w + 1;
        }
        let mut k2: usize = 0;
        while k2 < nattr
            invariant
                k2 <= nattr,
                nattr == attrs.len(),
                nbuf == buffers.len(),
                buffers == buffer_layout@,
                attrs == attributes@,
                locs == attr_locations@,
                locs.len() == nattr,
                pipeline_inputs_ok(buffers, attrs, locs),
                strides@.len() == nbuf,
                forall|b: int|
                    0 <= b < nbuf ==> strides@[b] == stride_after(buffers, attrs, b, nattr as int),
                offsets@.len() == nbuf,
                forall|b: int| 0 <= b < nbuf ==> offsets@[b] == offset_before(attrs, b, k2 as int),
                vertex_layout@.len() == table_len(attrs, nattr as int),
                vertex_layout@ == compiled_layout(buffers, attrs, locs, k2 as int),
            decreases nattr - k2,
        {
            let a = attributes[k2];
            let b = a.buffer_index;
            let loc_opt = attr_locations[k2];
            let divisor: i32 = if buffer_layout[b].step_func == VertexStep::PerVertex {
                0
            } else {
                buffer_layout[b].step_rate
            };
            let mut format = a.format;
            let mut attributes_count: usize = 1;
            if format == VertexFormat::Mat4 {
                format = VertexFormat::Float4;
                attributes_count = 4;
            }
            proof {
                assert(format == effective_format(attrs[k2 as int].format));
                assert(attributes_count as int == slots_of(attrs[k2 as int].format));
                assert(attributes_count as int * format.spec_byte_len() == attrs[
                    k2 as int
                ].format.spec_byte_len());
                lemma_offset_before_mono(attrs, b as int, k2 as int + 1, nattr as int);
                assert(offset_before(attrs, b as int, k2 as int + 1) == offset_before(
                    attrs,
                    b as int,
                    k2 as int,
                ) + attrs[k2 as int].format.spec_byte_len());
            }
            let ghost base = offset_before(attrs, b as int, k2 as int);
            let mut e: usize = 0;
            while e < attributes_count
                invariant
                    e <= attributes_count,
                    k2 < nattr,
                    nattr == attrs.len(),
                    nbuf == buffers.len(),
                    buffers == buffer_layout@,
                    attrs == attributes@,
                    locs == attr_locations@,
                    locs.len() == nattr,
                    pipeline_inputs_ok(buffers, attrs, locs),
                    b == attrs[k2 as int].buffer_index,
                    (b as int) < nbuf,
                    format == effective_format(attrs[k2 as int].format),
                    attributes_count as int == slots_of(attrs[k2 as int].format),
                    divisor == spec_divisor(buffers[b as int]),
                    loc_opt == locs[k2 as int],
                    base == offset_before(attrs, b as int, k2 as int),
                    base + attributes_count as int * format.spec_byte_len() <= i64::MAX,
                    strides@.len() == nbuf,
                    forall|bb: int|
                        0 <= bb < nbuf ==> strides@[bb] == stride_after(
                            buffers,
                            attrs,
                            bb,
                            nattr as int,
                        ),
                    offsets@.len() == nbuf,
                    forall|bb: int|
                        0 <= bb < nbuf && bb != b ==> offsets@[bb] == offset_before(
                            attrs,
                            bb,
                            k2 as int,
                        ),
                    offsets@[b as int] == base + e as int * format.spec_byte_len(),
                    vertex_layout@.len() == table_len(attrs, nattr as int),
                    vertex_layout@ == (match loc_opt {
                        Some(loc) => expand_attr(
                            compiled_layout(buffers, attrs, locs, k2 as int),
                            buffers,
                            attrs,
                            k2 as int,
                            loc,
                            e as int,
                        ),
                        None => compiled_layout(buffers, attrs, locs, k2 as int),
                    }),
                decreases attributes_count - e,
            {
                proof {
                    assert(0 <= format.spec_byte_len() <= 64);
                    assert((e as int + 1) * format.spec_byte_len() <= attributes_count as int
                        * format.spec_byte_len()) by (nonlinear_arith)
                        requires
                            e as int + 1 <= attributes_count as int,
                            format.spec_byte_len() >= 0,
                    ;
                    assert(e as int * format.spec_byte_len() >= 0) by (nonlinear_arith)
                        requires
                            e as int >= 0,
                            format.spec_byte_len() >= 0,
                    ;
                    assert((e as int + 1) * format.spec_byte_len() == e as int
                        * format.spec_byte_len() + format.spec_byte_len()) by (nonlinear_arith);
                    lemma_offset_before_mono(attrs, b as int, 0, k2 as int);
                    assert(base >= 0);
                }
                if let Some(loc) = loc_opt {
                    proof {
                        assert(loc + slots_of(attrs[k2 as int].format) <= table_len(
                            attrs,
                            nattr as int,
                        ));
                    }
                    let attr_loc = loc + e as u32;
                    let attr = VertexAttributeInternal {
                        attr_loc,
                        size: format.size(),
                        type_: format.type_(),
                        offset: offsets[b],
                        stride: strides[b],
                        buffer_index: b,
                        divisor,
                    };
                    vertex_layout.set(attr_loc as usize, Some(attr));
                    proof {
                        assert(attr == expanded_entry(buffers, attrs, k2 as int, loc, e as int));
                    }
                }
                let no = offsets[b] + format.byte_len() as i64;
                offsets.set(b, no);
                e = e + 1;
            }
            k2 = k2 + 1;
            proof {
                assert(offsets@[b as int] == offset_before(attrs, b as int, k2 as int));
                assert(forall|bb: int|
                    0 <= bb < nbuf ==> offsets@[bb] == offset_before(attrs, bb, k2 as int));
                assert(vertex_layout@ == compiled_layout(buffers, attrs, locs, k2 as int));
            }
        }

        let pipeline = PipelineInternal { layout: vertex_layout, shader, params };
        ctx.pipelines.push(pipeline);
        proof {
            assert(final(ctx).pipelines@[old(ctx).pipelines@.len() as int].layout@
                == compiled_layout(buffers, attrs, locs, nattr as int));
            match ctx.cache@.cur_pipeline {
                Some(p) => {
                    assert(ctx.pipelines@[p.0 as int] == old(ctx).pipelines@[p.0 as int]);
                },
                None => {},
            }
            assert(ctx.pipeline_state_ok());
        }
        Pipeline(ctx.pipelines.len() - 1)
    }

    /// Replace the pipeline's color blend configuration.
    pub fn set_blend(&self, ctx: &mut GraphicsContext, color_blend: Option<BlendState>)
        requires
            old(ctx).wf(),
            self.0 < old(ctx).pipelines@.len(),
        ensures
            final(ctx).wf(),
            final(ctx).pipelines@.len() == old(ctx).pipelines@.len(),
            forall|i: int|
                0 <= i < old(ctx).pipelines@.len() && i != self.0 ==> final(ctx).pipelines@[i]
                    == old(ctx).pipelines@[i],
            final(ctx).pipelines@[self.0 as int].params == (PipelineConf {
                color_blend: color_blend,
                ..old(ctx).pipelines@[self.0 as int].params
            }),
            final(ctx).pipelines@[self.0 as int].layout == old(ctx).pipelines@[self.0 as int].layout,
            final(ctx).pipelines@[self.0 as int].shader == old(ctx).pipelines@[self.0 as int].shader,
            final(ctx).shaders == old(ctx).shaders,
            final(ctx).passes == old(ctx).passes,
            final(ctx).cache@ == old(ctx).cache@,
            final(ctx).driver.calls@ == old(ctx).driver.calls@,
            final(ctx).driver.next_id == old(ctx).driver.next_id,
            final(ctx).features == old(ctx).features,
            final(ctx).default_framebuffer == old(ctx).default_framebuffer,
    {
        let mut pipeline = ctx.pipelines.remove(self.0);
        pipeline.params.color_blend = color_blend;
        ctx.pipelines.insert(self.0, pipeline);
        proof {
            assert(final(ctx).pipelines@ =~= old(ctx).pipelines@.update(
                self.0 as int,
                final(ctx).pipelines@[self.0 as int],
            ));
            match ctx.cache@.cur_pipeline {
                Some(p) => {
                    assert(ctx.pipelines@[p.0 as int].shader == old(ctx).pipelines@[
                        p.0 as int
                    ].shader);
                    assert(ctx.pipelines@[p.0 as int].params.depth_write == old(ctx).pipelines@[
                        p.0 as int
                    ].params.depth_write);
                    assert(ctx.pipelines@[p.0 as int].params.depth_test == old(ctx).pipelines@[
                        p.0 as int
                    ].params.depth_test);
                    assert(ctx.pipelines@[p.0 as int].params.front_face_order == old(
                        ctx,
                    ).pipelines@[p.0 as int].params.front_face_order);
                },
                None => {},
            }
            assert(ctx.pipeline_state_ok());
        }
    }
}

impl PipelineConf {
    /// The default configuration as a spec value.
    pub open spec fn spec_default() -> PipelineConf {
        PipelineConf {
            cull_face: CullFace::Nothing,
            front_face_order: FrontFaceOrder::CounterClockwise,
            depth_test: Comparison::Always,
            depth_write: false,
            color_blend: None,
            alpha_blend: None,
            stencil_test: None,
            color_write: (true, true, true, true),
            primitive_type: PrimitiveType::Triangles,
        }
    }
}

/// The unconditional calls `apply_pipeline` issues before the cached state
/// setters: activate the program, enable scissoring, configure the depth
/// test, and set the front-face winding.
pub open spec fn spec_apply_pipeline_prefix(program: u32, params: PipelineConf) -> Seq<DriverCall> {
    seq![
        DriverCall::UseProgram { program },
        DriverCall::Enable { cap: GL_SCISSOR_TEST },
    ] + (if params.depth_write {
        seq![
            DriverCall::Enable { cap: GL_DEPTH_TEST },
            DriverCall::DepthFunc { func: spec_gl_comparison(params.depth_test) },
        ]
    } else {
        seq![DriverCall::Disable { cap: GL_DEPTH_TEST }]
    }) + seq![
        DriverCall::FrontFace {
            mode: if params.front_face_order == FrontFaceOrder::Clockwise {
                GL_CW
            } else {
                GL_CCW
            },
        },
    ]
}

/// All the driver calls `apply_pipeline` issues: the activation prefix —
/// elided entirely when the cache shows the pipeline already active — then
/// the cached state setters in order, each eliding what is already in
/// effect.
pub open spec fn spec_apply_pipeline_calls(
    c: CacheModel,
    pipeline: Pipeline,
    program: u32,
    params: PipelineConf,
) -> Seq<DriverCall> {
    (if c.cur_pipeline == Some(pipeline) {
        Seq::empty()
    } else {
        spec_apply_pipeline_prefix(program, params)
    }) + spec_apply_params_calls(CacheModel { cur_pipeline: Some(pipeline), ..c }, params)
}

/// The calls the four cached state setters issue when pushing a pipeline's
/// configuration, in order, each starting from the cache the previous one
/// left.
pub open spec fn spec_apply_params_calls(c: CacheModel, params: PipelineConf) -> Seq<DriverCall> {
    let c2 = CacheModel { cull_face: params.cull_face, ..c };
    let c3 = CacheModel {
        color_blend: params.color_blend,
        alpha_blend: params.alpha_blend,
        ..c2
    };
    let c4 = CacheModel { stencil: params.stencil_test, ..c3 };
    spec_set_cull_calls(c, params.cull_face)
        + spec_set_blend_calls(c2, params.color_blend, params.alpha_blend)
        + spec_set_stencil_calls(c3, params.stencil_test) + spec_set_color_write_calls(
        c4,
        params.color_write,
    )
}

/// Replaying the activation prefix sets exactly the program, scissor, depth
/// and winding registers.
pub proof fn lemma_prefix_run(d: DriverModel, program: u32, params: PipelineConf)
    ensures
        driver_run(d, spec_apply_pipeline_prefix(program, params)) == (DriverModel {
            program: program,
            scissor_test_on: true,
            depth_test_on: params.depth_write,
            depth_func: if params.depth_write {
                spec_gl_comparison(params.depth_test)
            } else {
                d.depth_func
            },
            front_face: if params.front_face_order == FrontFaceOrder::Clockwise {
                GL_CW
            } else {
                GL_CCW
            },
            ..d
        }),
{
    let prefix = spec_apply_pipeline_prefix(program, params);
    let up = DriverCall::UseProgram { program };
    let sc = DriverCall::Enable { cap: GL_SCISSOR_TEST };
    let ff = DriverCall::FrontFace {
        mode: if params.front_face_order == FrontFaceOrder::Clockwise {
            GL_CW
        } else {
            GL_CCW
        },
    };
    if params.depth_write {
        let de = DriverCall::Enable { cap: GL_DEPTH_TEST };
        let df = DriverCall::DepthFunc { func: spec_gl_comparison(params.depth_test) };
        assert(prefix =~= seq![up, sc] + seq![de, df] + seq![ff]);
        lemma_driver_run_append(d, seq![up, sc], seq![de, df]);
        lemma_driver_run_two(d, up, sc);
        let dab = driver_run(d, seq![up, sc]);
        lemma_driver_run_two(dab, de, df);
        lemma_driver_run_append(d, seq![up, sc] + seq![de, df], seq![ff]);
        lemma_driver_run_one(driver_run(d, seq![up, sc] + seq![de, df]), ff);
    } else {
        let dd = DriverCall::Disable { cap: GL_DEPTH_TEST };
        assert(prefix =~= seq![up, sc] + seq![dd] + seq![ff]);
        lemma_driver_run_append(d, seq![up, sc], seq![dd]);
        lemma_driver_run_two(d, up, sc);
        lemma_driver_run_one(driver_run(d, seq![up, sc]), dd);
        lemma_driver_run_append(d, seq![up, sc] + seq![dd], seq![ff]);
        lemma_driver_run_one(driver_run(d, seq![up, sc] + seq![dd]), ff);
    }
}

impl GraphicsContext {
    /// Push a pipeline's cull, blend, stencil and color-write configuration
    /// through the cached state setters.
    #[verifier::rlimit(100)]
    #[verifier::spinoff_prover]
    fn apply_params(&mut self, params: PipelineConf)
        requires
            old(self).wf(),
            !(params.color_blend is None && params.alpha_blend is Some),
        ensures
            final(self).wf(),
            final(self).cache@ == (CacheModel {
                cull_face: params.cull_face,
                color_blend: params.color_blend,
                alpha_blend: params.alpha_blend,
                stencil: params.stencil_test,
                color_write: params.color_write,
                ..old(self).cache@
            }),
            final(self).driver.calls@ == old(self).driver.calls@ + spec_apply_params_calls(
                old(self).cache@,
                params,
            ),
            final(self).driver.next_id == old(self).driver.next_id,
            same_surroundings(*old(self), *final(self)),
    {
        self.set_cull_face(params.cull_face);
        self.set_blend(params.color_blend, params.alpha_blend);
        self.set_stencil(params.stencil_test);
        self.set_color_write(params.color_write);
        proof {
            assert(final(self).driver.calls@ =~= old(self).driver.calls@
                + spec_apply_params_calls(old(self).cache@, params));
        }
    }

    /// Issue the activation prefix: use the program, enable scissoring,
    /// configure the depth test, set the winding.
    fn activate_prefix(&mut self, program: u32, params: PipelineConf)
        ensures
            final(self).cache@ == old(self).cache@,
            final(self).driver.calls@ == old(self).driver.calls@ + spec_apply_pipeline_prefix(
                program,
                params,
            ),
            final(self).driver.next_id == old(self).driver.next_id,
            same_surroundings(*old(self), *final(self)),
    {
        self.driver.emit(DriverCall::UseProgram { program });
        self.driver.emit(DriverCall::Enable { cap: GL_SCISSOR_TEST });
        if params.depth_write {
            self.driver.emit(DriverCall::Enable { cap: GL_DEPTH_TEST });
            self.driver.emit(DriverCall::DepthFunc { func: gl_comparison(params.depth_test) });
        } else {
            self.driver.emit(DriverCall::Disable { cap: GL_DEPTH_TEST });
        }
        match params.front_face_order {
            FrontFaceOrder::Clockwise => {
                self.driver.emit(DriverCall::FrontFace { mode: GL_CW });
            },
            FrontFaceOrder::CounterClockwise => {
                self.driver.emit(DriverCall::FrontFace { mode: GL_CCW });
            },
        }
        proof {
            assert(self.driver.calls@ =~= old(self).driver.calls@ + spec_apply_pipeline_prefix(
                program,
                params,
            ));
        }
    }

    /// Activate a pipeline: use its shader's program, enable scissoring,
    /// configure depth testing and winding, and push its cull, blend,
    /// stencil and color-write configuration through the state cache. Every
    /// part is a no-op when the cache shows the value already applied: a
    /// repeated activation of the current pipeline issues no calls at all
    /// beyond what its configuration still requires.
    #[verifier::rlimit(100)]
    #[verifier::spinoff_prover]
    pub fn apply_pipeline(&mut self, pipeline: &Pipeline)
        requires
            old(self).wf(),
            pipeline.0 < old(self).pipelines@.len(),
            !(old(self).pipelines@[pipeline.0 as int].params.color_blend is None && old(
                self,
            ).pipelines@[pipeline.0 as int].params.alpha_blend is Some),
        ensures
            final(self).wf(),
            final(self).cache@ == (CacheModel {
                cur_pipeline: Some(*pipeline),
                cull_face: old(self).pipelines@[pipeline.0 as int].params.cull_face,
                color_blend: old(self).pipelines@[pipeline.0 as int].params.color_blend,
                alpha_blend: old(self).pipelines@[pipeline.0 as int].params.alpha_blend,
                stencil: old(self).pipelines@[pipeline.0 as int].params.stencil_test,
                color_write: old(self).pipelines@[pipeline.0 as int].params.color_write,
                ..old(self).cache@
            }),
            final(self).driver.calls@ == old(self).driver.calls@ + spec_apply_pipeline_calls(
                old(self).cache@,
                *pipeline,
                old(self).shaders@[old(self).pipelines@[pipeline.0 as int].shader.0 as int].program,
                old(self).pipelines@[pipeline.0 as int].params,
            ),
            final(self).driver.next_id == old(self).driver.next_id,
            same_surroundings(*old(self), *final(self)),
    {
        let ghost c0 = self.cache@;
        let ghost d0 = self.replayed();
        let ghost inst = self.features.instancing;
        let ghost init = initial_driver(self.default_framebuffer);
        let params = self.pipelines[pipeline.0].params;
        let program = self.shaders[self.pipelines[pipeline.0].shader.0].program;

        let already_active = self.cache.cur_pipeline == Some(*pipeline);
        self.cache.cur_pipeline = Some(*pipeline);
        if !already_active {
            self.activate_prefix(program, params);
            proof {
                let prefix = spec_apply_pipeline_prefix(program, params);
                lemma_driver_run_append(init, old(self).driver.calls@, prefix);
                assert(forall|i: int|
                    0 <= i < prefix.len() ==> neutral_call(#[trigger] prefix[i]));
                lemma_neutral_run(self.cache@, d0, prefix, inst);
                lemma_prefix_run(d0, program, params);
                assert(self.wf());
            }
        }
        self.apply_params(params);
        proof {
            assert(final(self).driver.calls@ =~= old(self).driver.calls@
                + spec_apply_pipeline_calls(c0, *pipeline, program, params));
        }
    }
}

} // verus!
