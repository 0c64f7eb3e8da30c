use vstd::prelude::*;

use crate::cache::{
    spec_bind_buffer, spec_bind_buffer_calls, spec_clear_texture_calls,
    spec_clear_textures_cache, CacheModel,
};
use crate::context::{
    lemma_clear_calls_keep, lemma_keeps_one, lemma_registers_kept, same_surroundings,
    spec_clear_calls, Clear, GraphicsContext,
};
use crate::driver::{
    initial_driver, lemma_driver_run_append, lemma_driver_run_push, DriverCall, GL_ARRAY_BUFFER,
    GL_COLOR_ATTACHMENT0, GL_DEPTH_ATTACHMENT, GL_ELEMENT_ARRAY_BUFFER, MAX_SHADERSTAGE_IMAGES,
};
use crate::sync::{
    keeps_pipeline_prefix_state, lemma_bind_buffer_calls_keep, lemma_bind_buffer_sync,
    lemma_clear_texture_calls_keep, lemma_clear_textures_sync, lemma_keeps_concat,
    lemma_neutral_run, lemma_neutral_step, neutral_call,
};
use crate::texture::Texture;

verus! {

/// What happens to the render target when a pass begins.
#[derive(Debug, Clone, Copy)]
pub enum PassAction {
    Nothing,
    Clear(Clear),
}

/// Bit pattern of the 32-bit float value one, the conventional depth clear.
pub const DEPTH_CLEAR_ONE_BITS: u32 = 0x3F800000;

impl PassAction {
    /// A pass action that clears color to the given float bit patterns and
    /// depth to one.
    pub fn clear_color(r_bits: u32, g_bits: u32, b_bits: u32, a_bits: u32) -> (r: PassAction)
        ensures
            r == PassAction::Clear(
                Clear {
                    color: Some((r_bits, g_bits, b_bits, a_bits)),
                    depth: Some(DEPTH_CLEAR_ONE_BITS),
                    stencil: None,
                },
            ),
    {
        PassAction::Clear(
            Clear {
                color: Some((r_bits, g_bits, b_bits, a_bits)),
                depth: Some(DEPTH_CLEAR_ONE_BITS),
                stencil: None,
            },
        )
    }
}

impl Default for PassAction {
    /// Clear color to transparent black and depth to one.
    fn default() -> (r: PassAction)
        ensures
            r == PassAction::Clear(
                Clear {
                    color: Some((0, 0, 0, 0)),
                    depth: Some(DEPTH_CLEAR_ONE_BITS),
                    stencil: None,
                },
            ),
    {
        PassAction::Clear(
            Clear { color: Some((0, 0, 0, 0)), depth: Some(DEPTH_CLEAR_ONE_BITS), stencil: None },
        )
    }
}

/// A render pass held by the context: its framebuffer, the color texture it
/// renders into, and an optional depth texture.
#[derive(Debug, PartialEq, Eq, Structural, Clone, Copy)]
pub struct RenderPassInternal {
    pub gl_fb: u32,
    pub texture: Texture,
    pub depth_texture: Option<Texture>,
}

/// Handle to a render pass owned by a context.
#[derive(Debug, PartialEq, Eq, Structural, Clone, Copy)]
pub struct RenderPass(pub usize);


impl RenderPass {
    /// Allocate a framebuffer, attach the color texture and the optional
    /// depth texture, and restore the default framebuffer afterward.
    pub fn new(ctx: &mut GraphicsContext, color_img: Texture, depth_img: Option<Texture>) -> (r:
        RenderPass)
        requires
            old(ctx).wf(),
            old(ctx).driver.next_id < u32::MAX,
        ensures
            final(ctx).wf(),
            r == RenderPass(old(ctx).passes@.len() as usize),
            final(ctx).passes@.len() == old(ctx).passes@.len() + 1,
            forall|i: int|
                0 <= i < old(ctx).passes@.len() ==> final(ctx).passes@[i] == old(ctx).passes@[i],
            final(ctx).passes@.last() == (RenderPassInternal {
                gl_fb: old(ctx).driver.next_id,
                texture: color_img,
                depth_texture: depth_img,
            }),
            final(ctx).cache@ == old(ctx).cache@,
            final(ctx).driver.calls@ == old(ctx).driver.calls@ + seq![
                DriverCall::GenFramebuffer { framebuffer: old(ctx).driver.next_id },
                DriverCall::BindFramebuffer { framebuffer: old(ctx).driver.next_id },
                DriverCall::FramebufferTexture2D {
                    attachment: GL_COLOR_ATTACHMENT0,
                    texture: color_img.texture,
                },
            ] + (match depth_img {
                Some(d) => seq![
                    DriverCall::FramebufferTexture2D {
                        attachment: GL_DEPTH_ATTACHMENT,
                        texture: d.texture,
                    },
                ],
                None => Seq::empty(),
            }) + seq![
                DriverCall::BindFramebuffer { framebuffer: old(ctx).default_framebuffer },
            ],
            final(ctx).driver.next_id == old(ctx).driver.next_id + 1,
            final(ctx).shaders == old(ctx).shaders,
            final(ctx).pipelines == old(ctx).pipelines,
            final(ctx).features == old(ctx).features,
            final(ctx).default_framebuffer == old(ctx).default_framebuffer,
            final(ctx).screen_width == old(ctx).screen_width,
            final(ctx).screen_height == old(ctx).screen_height,
    {
        let ghost init = initial_driver(ctx.default_framebuffer);
        let ghost inst = ctx.features.instancing;
        let gl_fb = ctx.driver.alloc_id();
        let ghost d0 = ctx.replayed();
        let c_gen = DriverCall::GenFramebuffer { framebuffer: gl_fb };
        let c_bind = DriverCall::BindFramebuffer { framebuffer: gl_fb };
        let c_color = DriverCall::FramebufferTexture2D {
            attachment: GL_COLOR_ATTACHMENT0,
            texture: color_img.texture,
        };
        ctx.driver.emit(c_gen);
        proof {
            lemma_driver_run_push(init, old(ctx).driver.calls@, c_gen);
            lemma_neutral_step(ctx.cache@, d0, c_gen, inst);
        }
        let ghost d1 = ctx.replayed();
        let ghost calls1 = ctx.driver.calls@;
        ctx.driver.emit(c_bind);
        proof {
            lemma_driver_run_push(init, calls1, c_bind);
            lemma_neutral_step(ctx.cache@, d1, c_bind, inst);
        }
        let ghost d2 = ctx.replayed();
        let ghost calls2 = ctx.driver.calls@;
        ctx.driver.emit(c_color);
        proof {
            lemma_driver_run_push(init, calls2, c_color);
            lemma_neutral_step(ctx.cache@, d2, c_color, inst);
        }
        if let Some(depth) = depth_img {
            let ghost d3 = ctx.replayed();
            let ghost calls3 = ctx.driver.calls@;
            let c_depth = DriverCall::FramebufferTexture2D {
                attachment: GL_DEPTH_ATTACHMENT,
                texture: depth.texture,
            };
            ctx.driver.emit(c_depth);
            proof {
                lemma_driver_run_push(init, calls3, c_depth);
                lemma_neutral_step(ctx.cache@, d3, c_depth, inst);
            }
        }
        let ghost d4 = ctx.replayed();
        let ghost calls4 = ctx.driver.calls@;
        let c_restore = DriverCall::BindFramebuffer { framebuffer: ctx.default_framebuffer };
        ctx.driver.emit(c_restore);
        proof {
            lemma_driver_run_push(init, calls4, c_restore);
            lemma_neutral_step(ctx.cache@, d4, c_restore, inst);
            let head = seq![c_gen, c_bind, c_color];
            let mid: Seq<DriverCall> = match depth_img {
                Some(d) => seq![
                    DriverCall::FramebufferTexture2D {
                        attachment: GL_DEPTH_ATTACHMENT,
                        texture: d.texture,
                    },
                ],
                None => Seq::empty(),
            };
            assert(ctx.driver.calls@ =~= old(ctx).driver.calls@ + head + mid + seq![c_restore]);
            assert(forall|i: int|
                0 <= i < head.len() ==> keeps_pipeline_prefix_state(#[trigger] head[i]));
            assert(forall|i: int|
                0 <= i < mid.len() ==> keeps_pipeline_prefix_state(#[trigger] mid[i]));
            lemma_keeps_one(c_restore);
            lemma_keeps_concat(head, mid);
            lemma_keeps_concat(head + mid, seq![c_restore]);
            lemma_registers_kept(init, old(ctx).driver.calls@, head + mid + seq![c_restore]);
            assert(old(ctx).driver.calls@ + head + mid + seq![c_restore] =~= old(ctx).driver.calls@
                + (head + mid + seq![c_restore]));
        }
        let pass = RenderPassInternal { gl_fb, texture: color_img, depth_texture: depth_img };
        ctx.passes.push(pass);
        RenderPass(ctx.passes.len() - 1)
    }

    /// The color texture the pass renders into.
    pub fn texture(&self, ctx: &GraphicsContext) -> (r: Texture)
        requires
            self.0 < ctx.passes@.len(),
        ensures
            r == ctx.passes@[self.0 as int].texture,
    {
        ctx.passes[self.0].texture
    }

    /// Release the pass's framebuffer. The handle must not be used after.
    pub fn delete(&self, ctx: &mut GraphicsContext)
        requires
            old(ctx).wf(),
            self.0 < old(ctx).passes@.len(),
        ensures
            final(ctx).wf(),
            final(ctx).cache@ == old(ctx).cache@,
            final(ctx).driver.calls@ == old(ctx).driver.calls@.push(
                DriverCall::DeleteFramebuffer {
                    framebuffer: old(ctx).passes@[self.0 as int].gl_fb,
                },
            ),
            final(ctx).driver.next_id == old(ctx).driver.next_id,
            same_surroundings(*old(ctx), *final(ctx)),
    {
        let ghost init = initial_driver(ctx.default_framebuffer);
        let ghost d0 = ctx.replayed();
        let del = DriverCall::DeleteFramebuffer { framebuffer: ctx.passes[self.0].gl_fb };
        ctx.driver.emit(del);
        proof {
            lemma_driver_run_push(init, old(ctx).driver.calls@, del);
            lemma_neutral_step(ctx.cache@, d0, del, ctx.features.instancing);
            lemma_keeps_one(del);
            assert(ctx.driver.calls@ =~= old(ctx).driver.calls@ + seq![del]);
            lemma_registers_kept(init, old(ctx).driver.calls@, seq![del]);
        }
    }
}

/// The calls `begin_pass` issues: bind the target framebuffer, reset the
/// viewport and scissor to the full target rectangle, then apply the action.
pub open spec fn spec_begin_pass_calls(
    framebuffer: u32,
    w: i32,
    h: i32,
    action: PassAction,
) -> Seq<DriverCall> {
    seq![
        DriverCall::BindFramebuffer { framebuffer },
        DriverCall::Viewport { x: 0, y: 0, w, h },
        DriverCall::Scissor { x: 0, y: 0, w, h },
    ] + (match action {
        PassAction::Nothing => Seq::empty(),
        PassAction::Clear(c) => spec_clear_calls(c),
    })
}

impl GraphicsContext {
    /// Start rendering to the default framebuffer at the recorded screen
    /// size.
    pub fn begin_default_pass(&mut self, action: PassAction)
        requires
            old(self).wf(),
        ensures
            final(self).wf(),
            final(self).cache@ == old(self).cache@,
            final(self).driver.calls@ == old(self).driver.calls@ + spec_begin_pass_calls(
                old(self).default_framebuffer,
                old(self).screen_width,
                old(self).screen_height,
                action,
            ),
            final(self).driver.next_id == old(self).driver.next_id,
            same_surroundings(*old(self), *final(self)),
    {
        self.begin_pass(None, action)
    }

    /// Start rendering to an offscreen pass's framebuffer at its color
    /// texture's size, or to the default framebuffer at the screen size. The
    /// viewport and scissor always reset to the full target rectangle, then
    /// the action's clear, if any, is applied.
    pub fn begin_pass(&mut self, pass: Option<RenderPass>, action: PassAction)
        requires
            old(self).wf(),
            match pass {
                Some(p) => p.0 < old(self).passes@.len(),
                None => true,
            },
        ensures
            final(self).wf(),
            final(self).cache@ == old(self).cache@,
            final(self).driver.calls@ == old(self).driver.calls@ + (match pass {
                Some(p) => spec_begin_pass_calls(
                    old(self).passes@[p.0 as int].gl_fb,
                    old(self).passes@[p.0 as int].texture.width as i32,
                    old(self).passes@[p.0 as int].texture.height as i32,
                    action,
                ),
                None => spec_begin_pass_calls(
                    old(self).default_framebuffer,
                    old(self).screen_width,
                    old(self).screen_height,
                    action,
                ),
            }),
            final(self).driver.next_id == old(self).driver.next_id,
            same_surroundings(*old(self), *final(self)),
    {
        let ghost init = initial_driver(self.default_framebuffer);
        let ghost inst = self.features.instancing;
        let ghost d0 = self.replayed();
        let framebuffer: u32;
        let w: i32;
        let h: i32;
        match pass {
            None => {
                framebuffer = self.default_framebuffer;
                w = self.screen_width;
                h = self.screen_height;
            },
            Some(p) => {
                framebuffer = self.passes[p.0].gl_fb;
                w = #[verifier::truncate] (self.passes[p.0].texture.width as i32);
                h = #[verifier::truncate] (self.passes[p.0].texture.height as i32);
            },
        }
        let c_fb = DriverCall::BindFramebuffer { framebuffer };
        let c_vp = DriverCall::Viewport { x: 0, y: 0, w, h };
        let c_sc = DriverCall::Scissor { x: 0, y: 0, w, h };
        self.driver.emit(c_fb);
        proof {
            lemma_driver_run_push(init, old(self).driver.calls@, c_fb);
            lemma_neutral_step(self.cache@, d0, c_fb, inst);
        }
        let ghost d1 = self.replayed();
        let ghost calls1 = self.driver.calls@;
        self.driver.emit(c_vp);
        proof {
            lemma_driver_run_push(init, calls1, c_vp);
            lemma_neutral_step(self.cache@, d1, c_vp, inst);
        }
        let ghost d2 = self.replayed();
        let ghost calls2 = self.driver.calls@;
        self.driver.emit(c_sc);
        proof {
            lemma_driver_run_push(init, calls2, c_sc);
            lemma_neutral_step(self.cache@, d2, c_sc, inst);
        }
        match action {
            PassAction::Nothing => {},
            PassAction::Clear(clear) => {
                let ghost d3 = self.replayed();
                let ghost calls3 = self.driver.calls@;
                clear.apply(&mut self.driver);
                proof {
                    lemma_driver_run_append(init, calls3, spec_clear_calls(clear));
                    assert(forall|i: int|
                        0 <= i < spec_clear_calls(clear).len() ==> neutral_call(
                            #[trigger] spec_clear_calls(clear)[i],
                        ));
                    lemma_neutral_run(self.cache@, d3, spec_clear_calls(clear), inst);
                }
            },
        }
        proof {
            assert(self.driver.calls@ =~= old(self).driver.calls@
                + spec_begin_pass_calls(framebuffer, w, h, action));
            let head = seq![c_fb, c_vp, c_sc];
            let tail: Seq<DriverCall> = match action {
                PassAction::Nothing => Seq::empty(),
                PassAction::Clear(cl) => spec_clear_calls(cl),
            };
            assert(forall|i: int|
                0 <= i < head.len() ==> keeps_pipeline_prefix_state(#[trigger] head[i]));
            match action {
                PassAction::Nothing => {},
                PassAction::Clear(cl) => lemma_clear_calls_keep(cl),
            }
            lemma_keeps_concat(head, tail);
            assert(spec_begin_pass_calls(framebuffer, w, h, action) == head + tail);
            lemma_registers_kept(
                init,
                old(self).driver.calls@,
                spec_begin_pass_calls(framebuffer, w, h, action),
            );
        }
    }

    /// Stop rendering to the current pass: restore the default framebuffer
    /// and unbind the vertex and index buffers.
    pub fn end_render_pass(&mut self)
        requires
            old(self).wf(),
        ensures
            final(self).wf(),
            final(self).cache@ == (CacheModel {
                vertex_buffer: 0,
                index_buffer: 0,
                index_type: None,
                ..old(self).cache@
            }),
            final(self).driver.calls@ == old(self).driver.calls@ + seq![
                DriverCall::BindFramebuffer { framebuffer: old(self).default_framebuffer },
            ] + spec_bind_buffer_calls(old(self).cache@, GL_ARRAY_BUFFER, 0) + spec_bind_buffer_calls(
                spec_bind_buffer(old(self).cache@, GL_ARRAY_BUFFER, 0, None),
                GL_ELEMENT_ARRAY_BUFFER,
                0,
            ),
            final(self).driver.next_id == old(self).driver.next_id,
            same_surroundings(*old(self), *final(self)),
    {
        let ghost init = initial_driver(self.default_framebuffer);
        let ghost inst = self.features.instancing;
        let ghost d0 = self.replayed();
        let c_fb = DriverCall::BindFramebuffer { framebuffer: self.default_framebuffer };
        self.driver.emit(c_fb);
        proof {
            lemma_driver_run_push(init, old(self).driver.calls@, c_fb);
            lemma_neutral_step(self.cache@, d0, c_fb, inst);
        }
        let ghost c1 = self.cache@;
        let ghost d1 = self.replayed();
        let ghost calls1 = self.driver.calls@;
        self.cache.bind_buffer(&mut self.driver, GL_ARRAY_BUFFER, 0, None);
        proof {
            lemma_driver_run_append(init, calls1, spec_bind_buffer_calls(c1, GL_ARRAY_BUFFER, 0));
            lemma_bind_buffer_sync(c1, d1, GL_ARRAY_BUFFER, 0, None, inst);
        }
        let ghost c2 = self.cache@;
        let ghost d2 = self.replayed();
        let ghost calls2 = self.driver.calls@;
        self.cache.bind_buffer(&mut self.driver, GL_ELEMENT_ARRAY_BUFFER, 0, None);
        proof {
            lemma_driver_run_append(
                init,
                calls2,
                spec_bind_buffer_calls(c2, GL_ELEMENT_ARRAY_BUFFER, 0),
            );
            lemma_bind_buffer_sync(c2, d2, GL_ELEMENT_ARRAY_BUFFER, 0, None, inst);
            assert(self.driver.calls@ =~= old(self).driver.calls@ + seq![c_fb]
                + spec_bind_buffer_calls(c1, GL_ARRAY_BUFFER, 0) + spec_bind_buffer_calls(
                c2,
                GL_ELEMENT_ARRAY_BUFFER,
                0,
            ));
            let a = spec_bind_buffer_calls(c1, GL_ARRAY_BUFFER, 0);
            let b = spec_bind_buffer_calls(c2, GL_ELEMENT_ARRAY_BUFFER, 0);
            lemma_keeps_one(c_fb);
            lemma_bind_buffer_calls_keep(c1, GL_ARRAY_BUFFER, 0);
            lemma_bind_buffer_calls_keep(c2, GL_ELEMENT_ARRAY_BUFFER, 0);
            lemma_keeps_concat(seq![c_fb], a);
            lemma_keeps_concat(seq![c_fb] + a, b);
            lemma_registers_kept(init, old(self).driver.calls@, seq![c_fb] + a + b);
            assert(old(self).driver.calls@ + seq![c_fb] + a + b =~= old(self).driver.calls@ + (
            seq![c_fb] + a + b));
        }
    }

    /// End the frame: force every buffer and texture binding to "none",
    /// giving the next frame a deterministic, fully known starting state.
    pub fn commit_frame(&mut self)
        requires
            old(self).wf(),
        ensures
            final(self).wf(),
            final(self).cache@ == spec_clear_textures_cache(
                (CacheModel {
                    vertex_buffer: 0,
                    index_buffer: 0,
                    index_type: None,
                    ..old(self).cache@
                }),
                MAX_SHADERSTAGE_IMAGES as int,
            ),
            final(self).cache@.vertex_buffer == 0,
            final(self).cache@.index_buffer == 0,
            final(self).cache@.index_type is None,
            final(self).cache@.textures == Seq::new(MAX_SHADERSTAGE_IMAGES as nat, |i: int| 0u32),
            final(self).driver.calls@ == old(self).driver.calls@ + spec_bind_buffer_calls(
                old(self).cache@,
                GL_ARRAY_BUFFER,
                0,
            ) + spec_bind_buffer_calls(
                spec_bind_buffer(old(self).cache@, GL_ARRAY_BUFFER, 0, None),
                GL_ELEMENT_ARRAY_BUFFER,
                0,
            ) + spec_clear_texture_calls(
                (CacheModel {
                    vertex_buffer: 0,
                    index_buffer: 0,
                    index_type: None,
                    ..old(self).cache@
                }),
                MAX_SHADERSTAGE_IMAGES as int,
            ),
            final(self).driver.next_id == old(self).driver.next_id,
            same_surroundings(*old(self), *final(self)),
    {
        let ghost init = initial_driver(self.default_framebuffer);
        let ghost inst = self.features.instancing;
        let ghost c0 = self.cache@;
        let ghost d0 = self.replayed();
        let ghost calls0 = self.driver.calls@;
        self.cache.clear_buffer_bindings(&mut self.driver);
        proof {
            let a = spec_bind_buffer_calls(c0, GL_ARRAY_BUFFER, 0);
            let cb = spec_bind_buffer(c0, GL_ARRAY_BUFFER, 0, None);
            let b = spec_bind_buffer_calls(cb, GL_ELEMENT_ARRAY_BUFFER, 0);
            assert(self.driver.calls@ =~= (calls0 + a) + b);
            lemma_driver_run_append(init, calls0, a);
            lemma_driver_run_append(init, calls0 + a, b);
            lemma_bind_buffer_sync(c0, d0, GL_ARRAY_BUFFER, 0, None, inst);
            lemma_bind_buffer_sync(
                cb,
                crate::driver::driver_run(d0, a),
                GL_ELEMENT_ARRAY_BUFFER,
                0,
                None,
                inst,
            );
        }
        let ghost c1 = self.cache@;
        let ghost d1 = self.replayed();
        let ghost calls1 = self.driver.calls@;
        self.cache.clear_texture_bindings(&mut self.driver);
        proof {
            lemma_driver_run_append(
                init,
                calls1,
                spec_clear_texture_calls(c1, MAX_SHADERSTAGE_IMAGES as int),
            );
            lemma_clear_textures_sync(c1, d1, MAX_SHADERSTAGE_IMAGES as int, inst);
            crate::cache::lemma_clear_textures_cache_fields(c1, MAX_SHADERSTAGE_IMAGES as int);
            let a = spec_bind_buffer_calls(c0, GL_ARRAY_BUFFER, 0);
            let cb = spec_bind_buffer(c0, GL_ARRAY_BUFFER, 0, None);
            let b = spec_bind_buffer_calls(cb, GL_ELEMENT_ARRAY_BUFFER, 0);
            let t = spec_clear_texture_calls(c1, MAX_SHADERSTAGE_IMAGES as int);
            assert(self.driver.calls@ =~= old(self).driver.calls@ + a + b + t);
            lemma_bind_buffer_calls_keep(c0, GL_ARRAY_BUFFER, 0);
            lemma_bind_buffer_calls_keep(cb, GL_ELEMENT_ARRAY_BUFFER, 0);
            lemma_clear_texture_calls_keep(c1, MAX_SHADERSTAGE_IMAGES as int);
            lemma_keeps_concat(a, b);
            lemma_keeps_concat(a + b, t);
            lemma_registers_kept(init, old(self).driver.calls@, a + b + t);
            assert(old(self).driver.calls@ + a + b + t =~= old(self).driver.calls@ + (a + b + t));
        }
    }
}

} // verus!
