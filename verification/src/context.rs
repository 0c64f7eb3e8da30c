use vstd::prelude::*;

use crate::cache::{initial_cache, CacheModel, GlCache};
use crate::driver::{
    driver_run, initial_driver, lemma_driver_run_append, lemma_driver_run_push,
    lemma_driver_run_two, Driver, DriverCall, DriverModel, GL_BLEND, GL_CCW, GL_COLOR_BUFFER_BIT,
    GL_CULL_FACE, GL_CW, GL_DEPTH_BUFFER_BIT, GL_FRONT, GL_BACK, GL_STENCIL_BUFFER_BIT,
    GL_STENCIL_TEST,
};
use crate::features::Features;
use crate::pipeline::{CullFace, FrontFaceOrder, PipelineInternal};
use crate::shader::{shader_internal_wf, ShaderInternal, ShaderUniform};
use crate::stencil::StencilState;
use crate::sync::{
    attr_slot_entry, in_sync, keeps_pipeline_prefix_state, lemma_attrs_calls_keep,
    lemma_bind_buffer_calls_keep, lemma_images_calls_keep, lemma_initial_in_sync,
    lemma_keeps_concat, lemma_keeps_prefix_run, lemma_neutral_run, lemma_neutral_step,
    lemma_set_blend_calls_keep, lemma_set_blend_sync, lemma_set_color_write_calls_keep,
    lemma_set_color_write_sync, lemma_set_cull_calls_keep, lemma_set_cull_sync,
    lemma_set_stencil_calls_keep, lemma_set_stencil_sync, neutral_call, spec_apply_attrs_cache,
    spec_apply_attrs_calls, spec_apply_images_cache, spec_apply_images_calls,
    spec_set_blend_calls, spec_set_color_write_calls, spec_set_cull_calls,
    spec_set_stencil_calls, stencil_side_calls,
};
use crate::blend::BlendState;
use crate::pass::RenderPassInternal;
use crate::tables::{
    gl_blend_factor, gl_compare_func, gl_equation, gl_stencil_op, spec_gl_comparison,
    spec_gl_index_type, spec_gl_primitive_type,
};

verus! {

/// Per-channel color write mask (red, green, blue, alpha).
pub type ColorMask = (bool, bool, bool, bool);

/// The graphics context: the resource arenas, the state cache, the optional
/// capabilities, and the driver surface every command is issued through.
pub struct GraphicsContext {
    pub shaders: Vec<ShaderInternal>,
    pub pipelines: Vec<PipelineInternal>,
    pub passes: Vec<RenderPassInternal>,
    pub default_framebuffer: u32,
    pub cache: GlCache,
    pub driver: Driver,
    pub features: Features,
    pub screen_width: i32,
    pub screen_height: i32,
}

/// A window backend that can produce a graphics context.
pub trait CreateContext {
    fn create_context(&mut self) -> GraphicsContext;
}

/// Appending register-keeping calls to a command stream leaves the
/// activation registers of the replayed driver state unchanged.
pub proof fn lemma_registers_kept(
    init: DriverModel,
    calls0: Seq<DriverCall>,
    extra: Seq<DriverCall>,
)
    requires
        forall|i: int| 0 <= i < extra.len() ==> keeps_pipeline_prefix_state(#[trigger] extra[i]),
    ensures
        driver_run(init, calls0 + extra).program == driver_run(init, calls0).program,
        driver_run(init, calls0 + extra).scissor_test_on == driver_run(init, calls0).scissor_test_on,
        driver_run(init, calls0 + extra).depth_test_on == driver_run(init, calls0).depth_test_on,
        driver_run(init, calls0 + extra).depth_func == driver_run(init, calls0).depth_func,
        driver_run(init, calls0 + extra).front_face == driver_run(init, calls0).front_face,
{
    lemma_driver_run_append(init, calls0, extra);
    lemma_keeps_prefix_run(driver_run(init, calls0), extra);
}

/// A single register-keeping call, as a one-call stream.
pub proof fn lemma_keeps_one(call: DriverCall)
    requires
        keeps_pipeline_prefix_state(call),
    ensures
        forall|i: int|
            0 <= i < seq![call].len() ==> keeps_pipeline_prefix_state(#[trigger] seq![call][i]),
{
    assert(seq![call][0] == call);
}

/// Everything but the cache and the driver surface is untouched.
pub open spec fn same_surroundings(a: GraphicsContext, b: GraphicsContext) -> bool {
    &&& a.shaders == b.shaders
    &&& a.pipelines == b.pipelines
    &&& a.passes == b.passes
    &&& a.default_framebuffer == b.default_framebuffer
    &&& a.features == b.features
    &&& a.screen_width == b.screen_width
    &&& a.screen_height == b.screen_height
}

impl GraphicsContext {
    /// The driver state that replaying the whole command stream reaches.
    pub open spec fn replayed(&self) -> DriverModel {
        driver_run(initial_driver(self.default_framebuffer), self.driver.calls@)
    }

    /// Index of the pipeline `apply_pipeline` last activated.
    pub open spec fn active_pipeline_index(&self) -> int {
        match self.cache@.cur_pipeline {
            Some(p) => p.0 as int,
            None => 0,
        }
    }

    /// The uniform slots of the active pipeline's shader.
    pub open spec fn active_shader_uniforms(&self) -> Seq<ShaderUniform> {
        self.shaders@[self.pipelines@[self.active_pipeline_index()].shader.0 as int].uniforms@
    }

    /// Every resource handle held by the context or its cache points into
    /// the owning arena, and every shader's slot tables are well formed.
    pub open spec fn handles_ok(&self) -> bool {
        &&& forall|i: int|
            0 <= i < self.pipelines@.len() ==> (#[trigger] self.pipelines@[i]).shader.0
                < self.shaders@.len()
        &&& forall|i: int|
            0 <= i < self.shaders@.len() ==> shader_internal_wf(#[trigger] self.shaders@[i])
        &&& match self.cache@.cur_pipeline {
            Some(p) => p.0 < self.pipelines@.len(),
            None => true,
        }
    }

    /// The driver's program, scissor-test, depth and winding registers hold
    /// exactly what activating the current pipeline wrote, so a repeated
    /// activation can skip them all.
    pub open spec fn pipeline_state_ok(&self) -> bool {
        match self.cache@.cur_pipeline {
            Some(p) => {
                let pi = self.pipelines@[p.0 as int];
                let d = self.replayed();
                &&& d.program == self.shaders@[pi.shader.0 as int].program
                &&& d.scissor_test_on
                &&& d.depth_test_on == pi.params.depth_write
                &&& (pi.params.depth_write ==> d.depth_func == spec_gl_comparison(
                    pi.params.depth_test,
                ))
                &&& d.front_face == (if pi.params.front_face_order == FrontFaceOrder::Clockwise {
                    GL_CW
                } else {
                    GL_CCW
                })
            },
            None => true,
        }
    }

    /// Context well-formedness: valid handles, the central invariant that
    /// the cache never diverges from the actual driver state, and the
    /// activation registers matching the current pipeline.
    pub open spec fn wf(&self) -> bool {
        &&& self.handles_ok()
        &&& in_sync(self.cache@, self.replayed(), self.features.instancing)
        &&& self.pipeline_state_ok()
    }

    /// Create a context over a freshly initialized driver: detect features,
    /// read off the externally bound framebuffer and surface size, and set
    /// up the one vertex array object the layer works with.
    pub fn new(
        is_gles2: bool,
        default_framebuffer: u32,
        screen_width: i32,
        screen_height: i32,
    ) -> (r: GraphicsContext)
        ensures
            r.wf(),
            r.cache@ == initial_cache(),
            r.features.instancing == !is_gles2,
            r.shaders@.len() == 0,
            r.pipelines@.len() == 0,
            r.passes@.len() == 0,
            r.default_framebuffer == default_framebuffer,
            r.screen_width == screen_width,
            r.screen_height == screen_height,
            r.driver.calls@ == seq![
                DriverCall::GenVertexArray { array: 1u32 },
                DriverCall::BindVertexArray { array: 1u32 },
            ],
            r.driver.next_id == 2,
    {
        let mut driver = Driver::new();
        let vao = driver.alloc_id();
        driver.emit(DriverCall::GenVertexArray { array: vao });
        driver.emit(DriverCall::BindVertexArray { array: vao });
        let r = GraphicsContext {
            shaders: Vec::new(),
            pipelines: Vec::new(),
            passes: Vec::new(),
            default_framebuffer,
            cache: GlCache::new(),
            driver,
            features: Features::from_gles2(is_gles2),
            screen_width,
            screen_height,
        };
        proof {
            let c0 = seq![
                DriverCall::GenVertexArray { array: 1u32 },
                DriverCall::BindVertexArray { array: 1u32 },
            ];
            assert(r.driver.calls@ =~= c0);
            lemma_initial_in_sync(default_framebuffer, !is_gles2);
            lemma_driver_run_two(initial_driver(default_framebuffer), c0[0], c0[1]);
            lemma_neutral_step(
                initial_cache(),
                initial_driver(default_framebuffer),
                c0[0],
                !is_gles2,
            );
            lemma_neutral_step(
                initial_cache(),
                crate::driver::driver_step(initial_driver(default_framebuffer), c0[0]),
                c0[1],
                !is_gles2,
            );
        }
        r
    }

    /// The optional capabilities this context's driver reported.
    pub fn features(&self) -> (r: &Features)
        ensures
            r == &self.features,
    {
        &self.features
    }

    /// Record the current size of the default framebuffer, as the windowing
    /// environment reports it.
    pub fn set_screen_size(&mut self, width: i32, height: i32)
        requires
            old(self).wf(),
        ensures
            final(self).wf(),
            final(self).screen_width == width,
            final(self).screen_height == height,
            final(self).cache@ == old(self).cache@,
            final(self).driver.calls@ == old(self).driver.calls@,
            final(self).driver.next_id == old(self).driver.next_id,
            final(self).shaders == old(self).shaders,
            final(self).pipelines == old(self).pipelines,
            final(self).passes == old(self).passes,
            final(self).default_framebuffer == old(self).default_framebuffer,
            final(self).features == old(self).features,
    {
        self.screen_width = width;
        self.screen_height = height;
    }

    /// Set the cull face, issuing driver calls only when it changes.
    pub fn set_cull_face(&mut self, cull_face: CullFace)
        requires
            old(self).wf(),
        ensures
            final(self).wf(),
            final(self).cache@ == (CacheModel { cull_face: cull_face, ..old(self).cache@ }),
            final(self).driver.calls@ == old(self).driver.calls@ + spec_set_cull_calls(
                old(self).cache@,
                cull_face,
            ),
            final(self).driver.next_id == old(self).driver.next_id,
            same_surroundings(*old(self), *final(self)),
    {
        let ghost c0 = self.cache@;
        let ghost d0 = self.replayed();
        if self.cache.cull_face == cull_face {
            proof {
                assert(self.driver.calls@ + spec_set_cull_calls(c0, cull_face)
                    =~= self.driver.calls@);
                assert(self.cache@ == (CacheModel { cull_face: cull_face, ..c0 }));
            }
            return ;
        }
        match cull_face {
            CullFace::Nothing => {
                self.driver.emit(DriverCall::Disable { cap: GL_CULL_FACE });
            },
            CullFace::Front => {
                self.driver.emit(DriverCall::Enable { cap: GL_CULL_FACE });
                self.driver.emit(DriverCall::CullFace { mode: GL_FRONT });
            },
            CullFace::Back => {
                self.driver.emit(DriverCall::Enable { cap: GL_CULL_FACE });
                self.driver.emit(DriverCall::CullFace { mode: GL_BACK });
            },
        }
        self.cache.cull_face = cull_face;
        proof {
            assert(self.driver.calls@ =~= old(self).driver.calls@ + spec_set_cull_calls(
                c0,
                cull_face,
            ));
            lemma_driver_run_append(
                initial_driver(self.default_framebuffer),
                old(self).driver.calls@,
                spec_set_cull_calls(c0, cull_face),
            );
            lemma_set_cull_sync(c0, d0, cull_face, self.features.instancing);
            lemma_set_cull_calls_keep(c0, cull_face);
            lemma_registers_kept(
                initial_driver(self.default_framebuffer),
                old(self).driver.calls@,
                spec_set_cull_calls(c0, cull_face),
            );
        }
    }

    /// Set the per-channel color write mask, issuing a driver call only when
    /// it changes.
    pub fn set_color_write(&mut self, color_write: ColorMask)
        requires
            old(self).wf(),
        ensures
            final(self).wf(),
            final(self).cache@ == (CacheModel { color_write: color_write, ..old(self).cache@ }),
            final(self).driver.calls@ == old(self).driver.calls@ + spec_set_color_write_calls(
                old(self).cache@,
                color_write,
            ),
            final(self).driver.next_id == old(self).driver.next_id,
            same_surroundings(*old(self), *final(self)),
    {
        let ghost c0 = self.cache@;
        let ghost d0 = self.replayed();
        let (r, g, b, a) = color_write;
        let (cr, cg, cb, ca) = self.cache.color_write;
        if r == cr && g == cg && b == cb && a == ca {
            proof {
                assert(c0.color_write == color_write);
                assert(self.driver.calls@ + spec_set_color_write_calls(c0, color_write)
                    =~= self.driver.calls@);
                assert(self.cache@ == (CacheModel { color_write: color_write, ..c0 }));
            }
            return ;
        }
        self.driver.emit(DriverCall::ColorMask { red: r, green: g, blue: b, alpha: a });
        self.cache.color_write = color_write;
        proof {
            assert(self.driver.calls@ =~= old(self).driver.calls@ + spec_set_color_write_calls(
                c0,
                color_write,
            ));
            lemma_driver_run_append(
                initial_driver(self.default_framebuffer),
                old(self).driver.calls@,
                spec_set_color_write_calls(c0, color_write),
            );
            lemma_set_color_write_sync(c0, d0, color_write, self.features.instancing);
            lemma_set_color_write_calls_keep(c0, color_write);
            lemma_registers_kept(
                initial_driver(self.default_framebuffer),
                old(self).driver.calls@,
                spec_set_color_write_calls(c0, color_write),
            );
        }
    }

    /// Set the blend state, enabling or disabling blending only on the
    /// transitions into and out of an active blend, and skipping all calls
    /// when the requested state is already cached. An alpha blend without a
    /// color blend is a caller error and is excluded.
    pub fn set_blend(&mut self, color_blend: Option<BlendState>, alpha_blend: Option<BlendState>)
        requires
            old(self).wf(),
            !(color_blend is None && alpha_blend is Some),
        ensures
            final(self).wf(),
            final(self).cache@ == (CacheModel {
                color_blend: color_blend,
                alpha_blend: alpha_blend,
                ..old(self).cache@
            }),
            final(self).driver.calls@ == old(self).driver.calls@ + spec_set_blend_calls(
                old(self).cache@,
                color_blend,
                alpha_blend,
            ),
            final(self).driver.next_id == old(self).driver.next_id,
            same_surroundings(*old(self), *final(self)),
    {
        let ghost c0 = self.cache@;
        let ghost d0 = self.replayed();
        if self.cache.color_blend == color_blend && self.cache.alpha_blend == alpha_blend {
            proof {
                assert(self.driver.calls@ + spec_set_blend_calls(c0, color_blend, alpha_blend)
                    =~= self.driver.calls@);
                assert(self.cache@ == (CacheModel {
                    color_blend: color_blend,
                    alpha_blend: alpha_blend,
                    ..c0
                }));
            }
            return ;
        }
        if let Some(cb) = color_blend {
            if self.cache.color_blend.is_none() {
                self.driver.emit(DriverCall::Enable { cap: GL_BLEND });
            }
            if let Some(ab) = alpha_blend {
                self.driver.emit(
                    DriverCall::BlendFuncSeparate {
                        src_rgb: gl_blend_factor(cb.sfactor),
                        dst_rgb: gl_blend_factor(cb.dfactor),
                        src_alpha: gl_blend_factor(ab.sfactor),
                        dst_alpha: gl_blend_factor(ab.dfactor),
                    },
                );
                self.driver.emit(
                    DriverCall::BlendEquationSeparate {
                        mode_rgb: gl_equation(cb.equation),
                        mode_alpha: gl_equation(ab.equation),
                    },
                );
            } else {
                self.driver.emit(
                    DriverCall::BlendFunc {
                        sfactor: gl_blend_factor(cb.sfactor),
                        dfactor: gl_blend_factor(cb.dfactor),
                    },
                );
                self.driver.emit(
                    DriverCall::BlendEquationSeparate {
                        mode_rgb: gl_equation(cb.equation),
                        mode_alpha: gl_equation(cb.equation),
                    },
                );
            }
        } else {
            if self.cache.color_blend.is_some() {
                self.driver.emit(DriverCall::Disable { cap: GL_BLEND });
            }
        }
        self.cache.color_blend = color_blend;
        self.cache.alpha_blend = alpha_blend;
        proof {
            assert(self.driver.calls@ =~= old(self).driver.calls@ + spec_set_blend_calls(
                c0,
                color_blend,
                alpha_blend,
            ));
            lemma_driver_run_append(
                initial_driver(self.default_framebuffer),
                old(self).driver.calls@,
                spec_set_blend_calls(c0, color_blend, alpha_blend),
            );
            lemma_set_blend_sync(c0, d0, color_blend, alpha_blend, self.features.instancing);
            lemma_set_blend_calls_keep(c0, color_blend, alpha_blend);
            lemma_registers_kept(
                initial_driver(self.default_framebuffer),
                old(self).driver.calls@,
                spec_set_blend_calls(c0, color_blend, alpha_blend),
            );
        }
    }

    /// Set the stencil state, enabling or disabling the stencil test only on
    /// the transitions, and skipping all calls when the requested state is
    /// already cached.
    pub fn set_stencil(&mut self, stencil_test: Option<StencilState>)
        requires
            old(self).wf(),
        ensures
            final(self).wf(),
            final(self).cache@ == (CacheModel { stencil: stencil_test, ..old(self).cache@ }),
            final(self).driver.calls@ == old(self).driver.calls@ + spec_set_stencil_calls(
                old(self).cache@,
                stencil_test,
            ),
            final(self).driver.next_id == old(self).driver.next_id,
            same_surroundings(*old(self), *final(self)),
    {
        let ghost c0 = self.cache@;
        let ghost d0 = self.replayed();
        if self.cache.stencil == stencil_test {
            proof {
                assert(self.driver.calls@ + spec_set_stencil_calls(c0, stencil_test)
                    =~= self.driver.calls@);
                assert(self.cache@ == (CacheModel { stencil: stencil_test, ..c0 }));
            }
            return ;
        }
        if let Some(stencil) = stencil_test {
            if self.cache.stencil.is_none() {
                self.driver.emit(DriverCall::Enable { cap: GL_STENCIL_TEST });
            }
            let front = stencil.front;
            self.driver.emit(
                DriverCall::StencilOpSeparate {
                    face: GL_FRONT,
                    fail: gl_stencil_op(front.fail_op),
                    zfail: gl_stencil_op(front.depth_fail_op),
                    zpass: gl_stencil_op(front.pass_op),
                },
            );
            self.driver.emit(
                DriverCall::StencilFuncSeparate {
                    face: GL_FRONT,
                    func: gl_compare_func(front.test_func),
                    reference: front.test_ref,
                    mask: front.test_mask,
                },
            );
            self.driver.emit(
                DriverCall::StencilMaskSeparate { face: GL_FRONT, mask: front.write_mask },
            );
            let back = stencil.back;
            self.driver.emit(
                DriverCall::StencilOpSeparate {
                    face: GL_BACK,
                    fail: gl_stencil_op(back.fail_op),
                    zfail: gl_stencil_op(back.depth_fail_op),
                    zpass: gl_stencil_op(back.pass_op),
                },
            );
            self.driver.emit(
                DriverCall::StencilFuncSeparate {
                    face: GL_BACK,
                    func: gl_compare_func(back.test_func),
                    reference: back.test_ref,
                    mask: back.test_mask,
                },
            );
            self.driver.emit(
                DriverCall::StencilMaskSeparate { face: GL_BACK, mask: back.write_mask },
            );
            proof {
                let en: Seq<DriverCall> = if c0.stencil is None {
                    seq![DriverCall::Enable { cap: GL_STENCIL_TEST }]
                } else {
                    Seq::empty()
                };
                assert(self.driver.calls@ =~= old(self).driver.calls@ + (en + stencil_side_calls(
                    GL_FRONT,
                    stencil.front,
                ) + stencil_side_calls(GL_BACK, stencil.back)));
            }
        } else {
            if self.cache.stencil.is_some() {
                self.driver.emit(DriverCall::Disable { cap: GL_STENCIL_TEST });
            }
            proof {
                assert(self.driver.calls@ =~= old(self).driver.calls@ + spec_set_stencil_calls(
                    c0,
                    stencil_test,
                ));
            }
        }
        self.cache.stencil = stencil_test;
        proof {
            assert(self.driver.calls@ =~= old(self).driver.calls@ + spec_set_stencil_calls(
                c0,
                stencil_test,
            ));
            lemma_driver_run_append(
                initial_driver(self.default_framebuffer),
                old(self).driver.calls@,
                spec_set_stencil_calls(c0, stencil_test),
            );
            lemma_set_stencil_sync(c0, d0, stencil_test, self.features.instancing);
            lemma_set_stencil_calls_keep(c0, stencil_test);
            lemma_registers_kept(
                initial_driver(self.default_framebuffer),
                old(self).driver.calls@,
                spec_set_stencil_calls(c0, stencil_test),
            );
        }
    }

    /// Set a new viewport rectangle. Should be applied after `begin_pass`.
    pub fn apply_viewport(&mut self, x: i32, y: i32, w: i32, h: i32)
        requires
            old(self).wf(),
        ensures
            final(self).wf(),
            final(self).cache@ == old(self).cache@,
            final(self).driver.calls@ == old(self).driver.calls@.push(
                DriverCall::Viewport { x, y, w, h },
            ),
            final(self).driver.next_id == old(self).driver.next_id,
            same_surroundings(*old(self), *final(self)),
    {
        let ghost d0 = self.replayed();
        self.driver.emit(DriverCall::Viewport { x, y, w, h });
        proof {
            lemma_driver_run_push(
                initial_driver(self.default_framebuffer),
                old(self).driver.calls@,
                DriverCall::Viewport { x, y, w, h },
            );
            lemma_neutral_step(
                self.cache@,
                d0,
                DriverCall::Viewport { x, y, w, h },
                self.features.instancing,
            );
            lemma_keeps_one(DriverCall::Viewport { x, y, w, h });
            assert(self.driver.calls@ =~= old(self).driver.calls@ + seq![
                DriverCall::Viewport { x, y, w, h },
            ]);
            lemma_registers_kept(
                initial_driver(self.default_framebuffer),
                old(self).driver.calls@,
                seq![DriverCall::Viewport { x, y, w, h }],
            );
        }
    }

    /// Set a new scissor rectangle. Should be applied after `begin_pass`.
    pub fn apply_scissor_rect(&mut self, x: i32, y: i32, w: i32, h: i32)
        requires
            old(self).wf(),
        ensures
            final(self).wf(),
            final(self).cache@ == old(self).cache@,
            final(self).driver.calls@ == old(self).driver.calls@.push(
                DriverCall::Scissor { x, y, w, h },
            ),
            final(self).driver.next_id == old(self).driver.next_id,
            same_surroundings(*old(self), *final(self)),
    {
        let ghost d0 = self.replayed();
        self.driver.emit(DriverCall::Scissor { x, y, w, h });
        proof {
            lemma_driver_run_push(
                initial_driver(self.default_framebuffer),
                old(self).driver.calls@,
                DriverCall::Scissor { x, y, w, h },
            );
            lemma_neutral_step(
                self.cache@,
                d0,
                DriverCall::Scissor { x, y, w, h },
                self.features.instancing,
            );
            lemma_keeps_one(DriverCall::Scissor { x, y, w, h });
            assert(self.driver.calls@ =~= old(self).driver.calls@ + seq![
                DriverCall::Scissor { x, y, w, h },
            ]);
            lemma_registers_kept(
                initial_driver(self.default_framebuffer),
                old(self).driver.calls@,
                seq![DriverCall::Scissor { x, y, w, h }],
            );
        }
    }
}

/// A clear request: each channel optionally cleared, color components and
/// depth carried as 32-bit float bit patterns.
#[derive(Debug, Clone, Copy)]
pub struct Clear {
    pub color: Option<(u32, u32, u32, u32)>,
    pub depth: Option<u32>,
    pub stencil: Option<i32>,
}

impl Default for Clear {
    fn default() -> (r: Clear)
        ensures
            r.color is None,
            r.depth is None,
            r.stencil is None,
    {
        Clear { color: None, depth: None, stencil: None }
    }
}

/// Driver calls a clear request issues: per-channel clear values, then one
/// clear with the combined buffer mask, or nothing when no channel is set.
pub open spec fn spec_clear_calls(c: Clear) -> Seq<DriverCall> {
    let color_calls: Seq<DriverCall> = match c.color {
        Some((r, g, b, a)) => seq![
            DriverCall::ClearColor { red_bits: r, green_bits: g, blue_bits: b, alpha_bits: a },
        ],
        None => Seq::empty(),
    };
    let depth_calls: Seq<DriverCall> = match c.depth {
        Some(v) => seq![DriverCall::ClearDepth { depth_bits: v }],
        None => Seq::empty(),
    };
    let stencil_calls: Seq<DriverCall> = match c.stencil {
        Some(v) => seq![DriverCall::ClearStencil { value: v }],
        None => Seq::empty(),
    };
    let mask = spec_clear_mask(c);
    let clear_calls: Seq<DriverCall> = if mask != 0 {
        seq![DriverCall::Clear { mask }]
    } else {
        Seq::empty()
    };
    color_calls + depth_calls + stencil_calls + clear_calls
}

/// A clear request's calls keep the activation registers.
pub proof fn lemma_clear_calls_keep(c: Clear)
    ensures
        forall|i: int|
            0 <= i < spec_clear_calls(c).len() ==> keeps_pipeline_prefix_state(
                #[trigger] spec_clear_calls(c)[i],
            ),
{
}

/// The combined buffer mask of a clear request.
pub open spec fn spec_clear_mask(c: Clear) -> u32 {
    let b0 = 0u32;
    let b1 = if c.color is Some {
        b0 | GL_COLOR_BUFFER_BIT
    } else {
        b0
    };
    let b2 = if c.depth is Some {
        b1 | GL_DEPTH_BUFFER_BIT
    } else {
        b1
    };
    if c.stencil is Some {
        b2 | GL_STENCIL_BUFFER_BIT
    } else {
        b2
    }
}

impl Clear {
    pub fn new() -> (r: Clear)
        ensures
            r.color is None,
            r.depth is None,
            r.stencil is None,
    {
        Clear::default()
    }

    /// Request a color clear; the components are float bit patterns.
    pub fn color(self, r_bits: u32, g_bits: u32, b_bits: u32, a_bits: u32) -> (r: Clear)
        ensures
            r == (Clear { color: Some((r_bits, g_bits, b_bits, a_bits)), ..self }),
    {
        Clear { color: Some((r_bits, g_bits, b_bits, a_bits)), ..self }
    }

    /// Request a depth clear; the value is a float bit pattern.
    pub fn depth(self, depth_bits: u32) -> (r: Clear)
        ensures
            r == (Clear { depth: Some(depth_bits), ..self }),
    {
        Clear { depth: Some(depth_bits), ..self }
    }

    /// Request a stencil clear.
    pub fn stencil(self, stencil: i32) -> (r: Clear)
        ensures
            r == (Clear { stencil: Some(stencil), ..self }),
    {
        Clear { stencil: Some(stencil), ..self }
    }

    /// Issue the clear to the driver.
    pub fn apply(self, d: &mut Driver)
        ensures
            final(d).calls@ == old(d).calls@ + spec_clear_calls(self),
            final(d).next_id == old(d).next_id,
    {
        let mut bits: u32 = 0;
        if let Some((r, g, b, a)) = self.color {
            bits = bits | GL_COLOR_BUFFER_BIT;
            d.emit(
                DriverCall::ClearColor { red_bits: r, green_bits: g, blue_bits: b, alpha_bits: a },
            );
        }
        if let Some(v) = self.depth {
            bits = bits | GL_DEPTH_BUFFER_BIT;
            d.emit(DriverCall::ClearDepth { depth_bits: v });
        }
        if let Some(v) = self.stencil {
            bits = bits | GL_STENCIL_BUFFER_BIT;
            d.emit(DriverCall::ClearStencil { value: v });
        }
        if bits != 0 {
            d.emit(DriverCall::Clear { mask: bits });
        }
        proof {
            assert(bits == spec_clear_mask(self));
            assert(final(d).calls@ =~= old(d).calls@ + spec_clear_calls(self));
        }
    }
}

impl GraphicsContext {
    /// Issue a clear against the current render target.
    pub fn clear(&mut self, clear: Clear)
        requires
            old(self).wf(),
        ensures
            final(self).wf(),
            final(self).cache@ == old(self).cache@,
            final(self).driver.calls@ == old(self).driver.calls@ + spec_clear_calls(clear),
            final(self).driver.next_id == old(self).driver.next_id,
            same_surroundings(*old(self), *final(self)),
    {
        let ghost d0 = self.replayed();
        clear.apply(&mut self.driver);
        proof {
            lemma_driver_run_append(
                initial_driver(self.default_framebuffer),
                old(self).driver.calls@,
                spec_clear_calls(clear),
            );
            assert(forall|i: int|
                0 <= i < spec_clear_calls(clear).len() ==> neutral_call(
                    #[trigger] spec_clear_calls(clear)[i],
                ));
            lemma_neutral_run(self.cache@, d0, spec_clear_calls(clear), self.features.instancing);
            lemma_clear_calls_keep(clear);
            lemma_registers_kept(
                initial_driver(self.default_framebuffer),
                old(self).driver.calls@,
                spec_clear_calls(clear),
            );
        }
    }

    /// Draw elements using the currently applied bindings and pipeline.
    ///
    /// `base_element` is the starting offset in the index buffer,
    /// `num_elements` the number of indices to draw, `num_instances` how many
    /// instances to render. Requesting more than one instance on a driver
    /// without instancing support skips the draw entirely; it is not an
    /// error.
    pub fn draw(&mut self, base_element: i32, num_elements: i32, num_instances: i32)
        requires
            old(self).wf(),
            old(self).cache@.cur_pipeline is Some,
            old(self).features.instancing || num_instances == 1 ==> {
                &&& old(self).cache@.index_type is Some
                &&& i32::MIN <= spec_draw_offset(old(self).cache@, base_element) <= i32::MAX
            },
        ensures
            final(self).wf(),
            final(self).cache@ == old(self).cache@,
            final(self).driver.calls@ == old(self).driver.calls@ + spec_draw_calls(
                *old(self),
                base_element,
                num_elements,
                num_instances,
            ),
            final(self).driver.next_id == old(self).driver.next_id,
            same_surroundings(*old(self), *final(self)),
            !old(self).features.instancing && num_instances != 1 ==> final(self).driver.calls@
                == old(self).driver.calls@,
    {
        let ghost d0 = self.replayed();
        if !self.features.instancing && num_instances != 1 {
            proof {
                assert(self.driver.calls@ + spec_draw_calls(
                    *old(self),
                    base_element,
                    num_elements,
                    num_instances,
                ) =~= self.driver.calls@);
            }
            return ;
        }
        let pip_index = match self.cache.cur_pipeline {
            Some(p) => p.0,
            None => 0,
        };
        let primitive_type = crate::tables::gl_primitive_type(
            self.pipelines[pip_index].params.primitive_type,
        );
        let index_type = match self.cache.index_type {
            Some(it) => it,
            None => crate::buffer::IndexType::Short,
        };
        let offset = index_type.size() as i32 * base_element;
        let call = if self.features.instancing {
            DriverCall::DrawElementsInstanced {
                mode: primitive_type,
                count: num_elements,
                index_type: crate::tables::gl_index_type(index_type),
                offset,
                instances: num_instances,
            }
        } else {
            DriverCall::DrawElements {
                mode: primitive_type,
                count: num_elements,
                index_type: crate::tables::gl_index_type(index_type),
                offset,
            }
        };
        self.driver.emit(call);
        proof {
            assert(self.driver.calls@ =~= old(self).driver.calls@ + spec_draw_calls(
                *old(self),
                base_element,
                num_elements,
                num_instances,
            ));
            lemma_driver_run_push(
                initial_driver(self.default_framebuffer),
                old(self).driver.calls@,
                call,
            );
            lemma_neutral_step(self.cache@, d0, call, self.features.instancing);
            lemma_keeps_one(call);
            lemma_registers_kept(
                initial_driver(self.default_framebuffer),
                old(self).driver.calls@,
                seq![call],
            );
        }
    }
}

/// Byte offset into the index buffer at which a draw starts.
pub open spec fn spec_draw_offset(c: CacheModel, base_element: i32) -> int {
    match c.index_type {
        Some(it) => (it.spec_size() as int) * (base_element as int),
        None => 0,
    }
}

/// The draw call a `draw` request issues: an instanced draw where the driver
/// supports instancing, a plain indexed draw otherwise, and nothing at all
/// when more than one instance is requested without instancing support.
pub open spec fn spec_draw_calls(
    ctx: GraphicsContext,
    base_element: i32,
    num_elements: i32,
    num_instances: i32,
) -> Seq<DriverCall> {
    if !ctx.features.instancing && num_instances != 1 {
        Seq::empty()
    } else {
        let mode = spec_gl_primitive_type(
            ctx.pipelines@[ctx.active_pipeline_index()].params.primitive_type,
        );
        let it = match ctx.cache@.index_type {
            Some(it) => it,
            None => crate::buffer::IndexType::Short,
        };
        let offset = spec_draw_offset(ctx.cache@, base_element) as i32;
        if ctx.features.instancing {
            seq![
                DriverCall::DrawElementsInstanced {
                    mode,
                    count: num_elements,
                    index_type: spec_gl_index_type(it),
                    offset,
                    instances: num_instances,
                },
            ]
        } else {
            seq![
                DriverCall::DrawElements {
                    mode,
                    count: num_elements,
                    index_type: spec_gl_index_type(it),
                    offset,
                },
            ]
        }
    }
}


/// Running 4-byte-word offset of the uniform block after its first `n`
/// slots.
pub open spec fn uniforms_word_offset(us: Seq<ShaderUniform>, n: int) -> int
    decreases n,
{
    if n <= 0 {
        0
    } else {
        uniforms_word_offset(us, n - 1) + us[n - 1].uniform_type.spec_words() * us[n - 1].array_count
    }
}

/// The uniform blob is long enough for the schema: each slot's first element
/// lies within the blob, and no running offset overflows the machine.
pub open spec fn uniform_blob_fits(us: Seq<ShaderUniform>, size: int) -> bool {
    &&& forall|i: int|
        0 <= i < us.len() ==> uniforms_word_offset(us, i)
            + (#[trigger] us[i]).uniform_type.spec_words() <= size
    &&& forall|i: int| 0 <= i <= us.len() ==> uniforms_word_offset(us, i) <= usize::MAX
}

/// The upload calls `apply_uniforms` issues for the first `n` slots: one per
/// slot whose location resolved, at that slot's running word offset.
pub open spec fn spec_apply_uniforms_calls(us: Seq<ShaderUniform>, n: int) -> Seq<DriverCall>
    decreases n,
{
    if n <= 0 {
        Seq::empty()
    } else {
        spec_apply_uniforms_calls(us, n - 1) + (match us[n - 1].gl_loc {
            Some(loc) => seq![
                DriverCall::UploadUniform {
                    location: loc,
                    uniform_type: us[n - 1].uniform_type,
                    array_count: us[n - 1].array_count,
                    word_offset: uniforms_word_offset(us, n - 1) as usize,
                },
            ],
            None => Seq::empty(),
        })
    }
}

/// Uniform uploads keep the activation registers.
pub proof fn lemma_uniform_calls_keep(us: Seq<ShaderUniform>, n: int)
    ensures
        forall|i: int|
            0 <= i < spec_apply_uniforms_calls(us, n).len() ==> keeps_pipeline_prefix_state(
                #[trigger] spec_apply_uniforms_calls(us, n)[i],
            ),
    decreases n,
{
    if n > 0 {
        lemma_uniform_calls_keep(us, n - 1);
        let a = spec_apply_uniforms_calls(us, n - 1);
        let b = spec_apply_uniforms_calls(us, n);
        assert forall|i: int| 0 <= i < b.len() implies keeps_pipeline_prefix_state(
            #[trigger] b[i],
        ) by {
            if i < a.len() {
                assert(b[i] == a[i]);
            }
        }
    }
}

/// Uniform uploads touch no state the cache tracks.
pub proof fn lemma_uniform_calls_neutral(us: Seq<ShaderUniform>, n: int)
    ensures
        forall|i: int|
            0 <= i < spec_apply_uniforms_calls(us, n).len() ==> neutral_call(
                #[trigger] spec_apply_uniforms_calls(us, n)[i],
            ),
    decreases n,
{
    if n > 0 {
        lemma_uniform_calls_neutral(us, n - 1);
        let a = spec_apply_uniforms_calls(us, n - 1);
        let b = spec_apply_uniforms_calls(us, n);
        assert forall|i: int| 0 <= i < b.len() implies neutral_call(#[trigger] b[i]) by {
            if i < a.len() {
                assert(b[i] == a[i]);
            }
        }
    }
}

impl GraphicsContext {
    /// The image slots of the active pipeline's shader.
    pub open spec fn active_shader_images(&self) -> Seq<crate::shader::ShaderImage> {
        self.shaders@[self.pipelines@[self.active_pipeline_index()].shader.0 as int].images@
    }

    /// The compiled attribute table of the active pipeline.
    pub open spec fn active_layout(&self) -> Seq<Option<crate::pipeline::VertexAttributeInternal>> {
        self.pipelines@[self.active_pipeline_index()].layout@
    }

    /// Upload a uniform blob against the active shader's uniform schema. The
    /// blob is a sequence of 4-byte words (float or integer bit patterns);
    /// the schema is walked in declaration order, slots whose location did
    /// not resolve are skipped, and each resolved slot's upload targets its
    /// running word offset. The blob must be long enough for the schema.
    pub fn apply_uniforms(&mut self, uniforms: &Vec<u32>)
        requires
            old(self).wf(),
            old(self).cache@.cur_pipeline is Some,
            uniform_blob_fits(old(self).active_shader_uniforms(), uniforms@.len() as int),
        ensures
            final(self).wf(),
            final(self).cache@ == old(self).cache@,
            final(self).driver.calls@ == old(self).driver.calls@ + spec_apply_uniforms_calls(
                old(self).active_shader_uniforms(),
                old(self).active_shader_uniforms().len() as int,
            ),
            final(self).driver.next_id == old(self).driver.next_id,
            same_surroundings(*old(self), *final(self)),
    {
        let ghost us = self.active_shader_uniforms();
        let ghost d0 = self.replayed();
        let pip_index = match self.cache.cur_pipeline {
            Some(p) => p.0,
            None => 0,
        };
        let shader_index = self.pipelines[pip_index].shader.0;
        let n = self.shaders[shader_index].uniforms.len();
        let mut offset: usize = 0;
        let mut i: usize = 0;
        while i < n
            invariant
                old(self).wf(),
                uniform_blob_fits(us, uniforms@.len() as int),
                self.cache@ == old(self).cache@,
                self.cache@.cur_pipeline is Some,
                same_surroundings(*old(self), *self),
                self.shaders == old(self).shaders,
                self.pipelines == old(self).pipelines,
                pip_index as int == old(self).active_pipeline_index(),
                pip_index < self.pipelines@.len(),
                shader_index == self.pipelines@[pip_index as int].shader.0,
                shader_index < self.shaders@.len(),
                us == self.shaders@[shader_index as int].uniforms@,
                us == old(self).active_shader_uniforms(),
                n == us.len(),
                i <= n,
                offset == uniforms_word_offset(us, i as int),
                self.driver.calls@ == old(self).driver.calls@ + spec_apply_uniforms_calls(
                    us,
                    i as int,
                ),
                self.driver.next_id == old(self).driver.next_id,
                self.default_framebuffer == old(self).default_framebuffer,
            decreases n - i,
        {
            let u = self.shaders[shader_index].uniforms[i];
            proof {
                assert(shader_internal_wf(self.shaders@[shader_index as int]));
                assert(u.array_count >= 0);
                assert(u.uniform_type.spec_words() * u.array_count >= 0) by (nonlinear_arith)
                    requires
                        u.array_count >= 0,
                        u.uniform_type.spec_words() >= 0,
                ;
                assert(uniforms_word_offset(us, i as int + 1) == offset
                    + u.uniform_type.spec_words() * u.array_count);
                assert(uniforms_word_offset(us, i as int + 1) <= usize::MAX);
            }
            if let Some(loc) = u.gl_loc {
                self.driver.emit(
                    DriverCall::UploadUniform {
                        location: loc,
                        uniform_type: u.uniform_type,
                        array_count: u.array_count,
                        word_offset: offset,
                    },
                );
            }
            offset = offset + u.uniform_type.size() / 4 * (u.array_count as usize);
            i = i + 1;
            proof {
                assert(self.driver.calls@ =~= old(self).driver.calls@ + spec_apply_uniforms_calls(
                    us,
                    i as int,
                ));
            }
        }
        proof {
            lemma_driver_run_append(
                initial_driver(self.default_framebuffer),
                old(self).driver.calls@,
                spec_apply_uniforms_calls(us, n as int),
            );
            lemma_uniform_calls_neutral(us, n as int);
            lemma_neutral_run(
                self.cache@,
                d0,
                spec_apply_uniforms_calls(us, n as int),
                self.features.instancing,
            );
            lemma_uniform_calls_keep(us, n as int);
            lemma_registers_kept(
                initial_driver(self.default_framebuffer),
                old(self).driver.calls@,
                spec_apply_uniforms_calls(us, n as int),
            );
        }
    }
}


/// Cache state after `apply_bindings`: textures bound positionally for the
/// shader's resolved image slots, the index buffer bound, and every
/// attribute slot resolved against the pipeline's compiled table.
pub open spec fn spec_apply_bindings_cache(
    c: CacheModel,
    images: Seq<crate::shader::ShaderImage>,
    bound: Seq<crate::texture::Texture>,
    index_buffer: crate::buffer::Buffer,
    layout: Seq<Option<crate::pipeline::VertexAttributeInternal>>,
    vbufs: Seq<crate::buffer::Buffer>,
) -> CacheModel {
    let c1 = spec_apply_images_cache(c, images, bound, images.len() as int);
    let c2 = crate::cache::spec_bind_buffer(
        c1,
        crate::driver::GL_ELEMENT_ARRAY_BUFFER,
        index_buffer.gl_buf,
        index_buffer.index_type,
    );
    spec_apply_attrs_cache(c2, layout, vbufs, crate::driver::MAX_VERTEX_ATTRIBUTES as int)
}

/// Driver calls `apply_bindings` issues.
pub open spec fn spec_apply_bindings_calls(
    c: CacheModel,
    images: Seq<crate::shader::ShaderImage>,
    bound: Seq<crate::texture::Texture>,
    index_buffer: crate::buffer::Buffer,
    layout: Seq<Option<crate::pipeline::VertexAttributeInternal>>,
    vbufs: Seq<crate::buffer::Buffer>,
    instancing: bool,
) -> Seq<DriverCall> {
    let c1 = spec_apply_images_cache(c, images, bound, images.len() as int);
    let c2 = crate::cache::spec_bind_buffer(
        c1,
        crate::driver::GL_ELEMENT_ARRAY_BUFFER,
        index_buffer.gl_buf,
        index_buffer.index_type,
    );
    spec_apply_images_calls(c, images, bound, images.len() as int)
        + crate::cache::spec_bind_buffer_calls(
        c1,
        crate::driver::GL_ELEMENT_ARRAY_BUFFER,
        index_buffer.gl_buf,
    ) + spec_apply_attrs_calls(
        c2,
        layout,
        vbufs,
        instancing,
        crate::driver::MAX_VERTEX_ATTRIBUTES as int,
    )
}

impl GraphicsContext {
    /// Attach the bindings' buffers and textures for the draw calls that
    /// follow, consulting the cache to skip every rebind and every attribute
    /// pointer call whose configuration is already in effect.
    ///
    /// Each image slot the active shader declares takes the texture at the
    /// same position of the bindings, so the bindings must supply at least as
    /// many textures as the shader declares. Every attribute entry of the
    /// active pipeline must name a vertex buffer the bindings hold.
    #[verifier::rlimit(100)]
    #[verifier::spinoff_prover]
    pub fn apply_bindings(&mut self, bindings: &crate::buffer::Bindings)
        requires
            old(self).wf(),
            old(self).cache@.cur_pipeline is Some,
            old(self).active_shader_images().len() <= crate::driver::MAX_SHADERSTAGE_IMAGES,
            bindings.images@.len() >= old(self).active_shader_images().len(),
            forall|i: int|
                0 <= i < crate::driver::MAX_VERTEX_ATTRIBUTES ==> match #[trigger] attr_slot_entry(
                    old(self).active_layout(),
                    i,
                ) {
                    Some(a) => a.buffer_index < bindings.vertex_buffers@.len(),
                    None => true,
                },
        ensures
            final(self).wf(),
            final(self).cache@ == spec_apply_bindings_cache(
                old(self).cache@,
                old(self).active_shader_images(),
                bindings.images@,
                bindings.index_buffer,
                old(self).active_layout(),
                bindings.vertex_buffers@,
            ),
            final(self).driver.calls@ == old(self).driver.calls@ + spec_apply_bindings_calls(
                old(self).cache@,
                old(self).active_shader_images(),
                bindings.images@,
                bindings.index_buffer,
                old(self).active_layout(),
                bindings.vertex_buffers@,
                old(self).features.instancing,
            ),
            final(self).driver.next_id == old(self).driver.next_id,
            same_surroundings(*old(self), *final(self)),
    {
        let ghost c0 = self.cache@;
        let ghost images = self.active_shader_images();
        let ghost layout = self.active_layout();
        let ghost bound = bindings.images@;
        let ghost vbufs = bindings.vertex_buffers@;
        let ghost inst = self.features.instancing;
        let ghost init = initial_driver(self.default_framebuffer);
        let pip_index = match self.cache.cur_pipeline {
            Some(p) => p.0,
            None => 0,
        };
        let shader_index = self.pipelines[pip_index].shader.0;
        let n_images = self.shaders[shader_index].images.len();

        let mut n: usize = 0;
        while n < n_images
            invariant
                old(self).wf(),
                old(self).cache@.cur_pipeline is Some,
                bound.len() >= n_images,
                n_images <= crate::driver::MAX_SHADERSTAGE_IMAGES,
                n <= n_images,
                same_surroundings(*old(self), *self),
                self.shaders == old(self).shaders,
                self.pipelines == old(self).pipelines,
                self.default_framebuffer == old(self).default_framebuffer,
                self.features.instancing == inst,
                init == initial_driver(self.default_framebuffer),
                pip_index < self.pipelines@.len(),
                pip_index as int == old(self).active_pipeline_index(),
                shader_index == self.pipelines@[pip_index as int].shader.0,
                shader_index < self.shaders@.len(),
                images == self.shaders@[shader_index as int].images@,
                n_images == images.len(),
                bound == bindings.images@,
                c0 == old(self).cache@,
                self.cache@ == spec_apply_images_cache(c0, images, bound, n as int),
                self.cache@.cur_pipeline == c0.cur_pipeline,
                self.driver.calls@ == old(self).driver.calls@ + spec_apply_images_calls(
                    c0,
                    images,
                    bound,
                    n as int,
                ),
                self.driver.next_id == old(self).driver.next_id,
                in_sync(self.cache@, self.replayed(), inst),
            decreases n_images - n,
        {
            let img = self.shaders[shader_index].images[n];
            let ghost c_pre = self.cache@;
            let ghost d_pre = self.replayed();
            let ghost calls_pre = self.driver.calls@;
            if let Some(gl_loc) = img.gl_loc {
                let tex = bindings.images[n].texture;
                self.cache.bind_texture(&mut self.driver, n, tex);
                proof {
                    lemma_driver_run_append(
                        init,
                        calls_pre,
                        crate::cache::spec_bind_texture_calls(c_pre, n, tex),
                    );
                    crate::sync::lemma_bind_texture_sync(c_pre, d_pre, n, tex, inst);
                }
                let ghost calls_mid = self.driver.calls@;
                let ghost d_mid = self.replayed();
                let uni = DriverCall::Uniform1i { location: gl_loc, value: n as i32 };
                self.driver.emit(uni);
                proof {
                    lemma_driver_run_push(init, calls_mid, uni);
                    lemma_neutral_step(self.cache@, d_mid, uni, inst);
                }
            }
            n = n + 1;
            proof {
                assert(self.cache@ == spec_apply_images_cache(c0, images, bound, n as int));
                assert(self.driver.calls@ =~= old(self).driver.calls@ + spec_apply_images_calls(
                    c0,
                    images,
                    bound,
                    n as int,
                ));
            }
        }

        let ghost c1 = self.cache@;
        let ghost d1 = self.replayed();
        let ghost calls1 = self.driver.calls@;
        let ib_buf = bindings.index_buffer.gl_buf;
        let ib_type = bindings.index_buffer.index_type;
        self.cache.bind_buffer(
            &mut self.driver,
            crate::driver::GL_ELEMENT_ARRAY_BUFFER,
            ib_buf,
            ib_type,
        );
        proof {
            lemma_driver_run_append(
                init,
                calls1,
                crate::cache::spec_bind_buffer_calls(
                    c1,
                    crate::driver::GL_ELEMENT_ARRAY_BUFFER,
                    ib_buf,
                ),
            );
            crate::sync::lemma_bind_buffer_sync(
                c1,
                d1,
                crate::driver::GL_ELEMENT_ARRAY_BUFFER,
                ib_buf,
                ib_type,
                inst,
            );
        }

        let ghost c2 = self.cache@;
        let ghost calls2 = self.driver.calls@;
        let mut attr_index: usize = 0;
        while attr_index < crate::driver::MAX_VERTEX_ATTRIBUTES
            invariant
                old(self).wf(),
                old(self).cache@.cur_pipeline is Some,
                attr_index <= crate::driver::MAX_VERTEX_ATTRIBUTES,
                same_surroundings(*old(self), *self),
                self.shaders == old(self).shaders,
                self.pipelines == old(self).pipelines,
                self.default_framebuffer == old(self).default_framebuffer,
                self.features.instancing == inst,
                init == initial_driver(self.default_framebuffer),
                pip_index < self.pipelines@.len(),
                pip_index as int == old(self).active_pipeline_index(),
                layout == self.pipelines@[pip_index as int].layout@,
                layout == old(self).active_layout(),
                vbufs == bindings.vertex_buffers@,
                forall|i: int|
                    0 <= i < crate::driver::MAX_VERTEX_ATTRIBUTES ==> match #[trigger] attr_slot_entry(
                        layout,
                        i,
                    ) {
                        Some(a) => a.buffer_index < vbufs.len(),
                        None => true,
                    },
                self.cache@ == spec_apply_attrs_cache(c2, layout, vbufs, attr_index as int),
                self.cache@.cur_pipeline == c0.cur_pipeline,
                self.driver.calls@ == calls2 + spec_apply_attrs_calls(
                    c2,
                    layout,
                    vbufs,
                    inst,
                    attr_index as int,
                ),
                calls2 == old(self).driver.calls@ + spec_apply_images_calls(
                    c0,
                    images,
                    bound,
                    images.len() as int,
                ) + crate::cache::spec_bind_buffer_calls(
                    c1,
                    crate::driver::GL_ELEMENT_ARRAY_BUFFER,
                    ib_buf,
                ),
                c0 == old(self).cache@,
                c1 == spec_apply_images_cache(c0, images, bound, images.len() as int),
                c2 == crate::cache::spec_bind_buffer(
                    c1,
                    crate::driver::GL_ELEMENT_ARRAY_BUFFER,
                    ib_buf,
                    ib_type,
                ),
                ib_buf == bindings.index_buffer.gl_buf,
                ib_type == bindings.index_buffer.index_type,
                images == old(self).active_shader_images(),
                bound == bindings.images@,
                self.driver.next_id == old(self).driver.next_id,
                in_sync(self.cache@, self.replayed(), inst),
            decreases crate::driver::MAX_VERTEX_ATTRIBUTES - attr_index,
        {
            let ghost c_pre = self.cache@;
            let ghost d_pre = self.replayed();
            let ghost calls_pre = self.driver.calls@;
            let entry: Option<crate::pipeline::VertexAttributeInternal> = if attr_index
                < self.pipelines[pip_index].layout.len() {
                self.pipelines[pip_index].layout[attr_index]
            } else {
                None
            };
            proof {
                assert(entry == attr_slot_entry(layout, attr_index as int));
            }
            match entry {
                Some(attribute) => {
                    let vb = bindings.vertex_buffers[attribute.buffer_index];
                    let cached = self.cache.attributes[attr_index];
                    let needs_update = match cached {
                        None => true,
                        Some(ca) => !(ca.attribute == attribute && ca.gl_vbuf == vb.gl_buf),
                    };
                    proof {
                        assert(needs_update == !crate::sync::attr_slot_matches(
                            c_pre,
                            attr_index as int,
                            attribute,
                            vb.gl_buf,
                        ));
                    }
                    if needs_update {
                        self.cache.bind_buffer(
                            &mut self.driver,
                            crate::driver::GL_ARRAY_BUFFER,
                            vb.gl_buf,
                            vb.index_type,
                        );
                        let ptr = DriverCall::VertexAttribPointer {
                            index: attr_index as u32,
                            size: attribute.size,
                            type_: attribute.type_,
                            normalized: false,
                            stride: attribute.stride,
                            offset: attribute.offset,
                        };
                        self.driver.emit(ptr);
                        if self.features.instancing {
                            self.driver.emit(
                                DriverCall::VertexAttribDivisor {
                                    index: attr_index as u32,
                                    divisor: #[verifier::truncate] (attribute.divisor as u32),
                                },
                            );
                        }
                        self.driver.emit(
                            DriverCall::EnableVertexAttribArray { index: attr_index as u32 },
                        );
                        self.cache.attributes.set(
                            attr_index,
                            Some(crate::cache::CachedAttribute {
                                attribute,
                                gl_vbuf: vb.gl_buf,
                            }),
                        );
                        proof {
                            assert(self.cache@ == crate::sync::spec_program_attr_cache(
                                c_pre,
                                attr_index as int,
                                attribute,
                                vb.gl_buf,
                            ));
                            assert(self.driver.calls@ =~= calls_pre
                                + crate::sync::spec_program_attr_calls(
                                c_pre,
                                attr_index as int,
                                attribute,
                                vb.gl_buf,
                                inst,
                            ));
                            lemma_driver_run_append(
                                init,
                                calls_pre,
                                crate::sync::spec_program_attr_calls(
                                    c_pre,
                                    attr_index as int,
                                    attribute,
                                    vb.gl_buf,
                                    inst,
                                ),
                            );
                            crate::sync::lemma_program_attr_sync(
                                c_pre,
                                d_pre,
                                attr_index as int,
                                attribute,
                                vb.gl_buf,
                                inst,
                            );
                        }
                    }
                },
                None => {
                    let cached_is_some = self.cache.attributes[attr_index].is_some();
                    if cached_is_some {
                        let dis = DriverCall::DisableVertexAttribArray {
                            index: attr_index as u32,
                        };
                        self.driver.emit(dis);
                        self.cache.attributes.set(attr_index, None);
                        proof {
                            assert(self.driver.calls@ =~= calls_pre + seq![dis]);
                            lemma_driver_run_append(init, calls_pre, seq![dis]);
                            crate::sync::lemma_disable_attr_sync(
                                c_pre,
                                d_pre,
                                attr_index as int,
                                inst,
                            );
                        }
                    }
                },
            }
            attr_index = attr_index + 1;
            proof {
                assert(self.cache@ == spec_apply_attrs_cache(
                    c2,
                    layout,
                    vbufs,
                    attr_index as int,
                ));
                assert(self.driver.calls@ =~= calls2 + spec_apply_attrs_calls(
                    c2,
                    layout,
                    vbufs,
                    inst,
                    attr_index as int,
                ));
            }
        }
        proof {
            assert(self.driver.calls@ =~= old(self).driver.calls@ + spec_apply_bindings_calls(
                c0,
                images,
                bound,
                bindings.index_buffer,
                layout,
                vbufs,
                inst,
            ));
            let ia = spec_apply_images_calls(c0, images, bound, images.len() as int);
            let bb = crate::cache::spec_bind_buffer_calls(
                c1,
                crate::driver::GL_ELEMENT_ARRAY_BUFFER,
                ib_buf,
            );
            let at = spec_apply_attrs_calls(
                c2,
                layout,
                vbufs,
                inst,
                crate::driver::MAX_VERTEX_ATTRIBUTES as int,
            );
            lemma_images_calls_keep(c0, images, bound, images.len() as int);
            lemma_bind_buffer_calls_keep(c1, crate::driver::GL_ELEMENT_ARRAY_BUFFER, ib_buf);
            lemma_attrs_calls_keep(
                c2,
                layout,
                vbufs,
                inst,
                crate::driver::MAX_VERTEX_ATTRIBUTES as int,
            );
            lemma_keeps_concat(ia, bb);
            lemma_keeps_concat(ia + bb, at);
            lemma_registers_kept(init, old(self).driver.calls@, ia + bb + at);
        }
    }
}

} // verus!
