use glstate::driver::{
    GL_COLOR_ATTACHMENT0, GL_COLOR_BUFFER_BIT, GL_DEPTH_ATTACHMENT, GL_DEPTH_BUFFER_BIT,
    GL_TIME_ELAPSED,
};
use glstate::{
    Clear, DriverCall, ElapsedQuery, GraphicsContext, PassAction, RenderPass, Texture,
};

#[test]
fn render_pass_restores_default_framebuffer() {
    let mut ctx = GraphicsContext::new(false, 17, 800, 600);
    let color = Texture::from_raw(5, 256, 128);
    let depth = Texture::from_raw(6, 256, 128);
    let base = ctx.driver.calls.len();
    let pass = RenderPass::new(&mut ctx, color, Some(depth));
    assert_eq!(pass.texture(&ctx), color);
    let calls = &ctx.driver.calls[base..];
    assert_eq!(calls.len(), 5);
    assert!(matches!(calls[0], DriverCall::GenFramebuffer { .. }));
    assert_eq!(
        calls[2],
        DriverCall::FramebufferTexture2D { attachment: GL_COLOR_ATTACHMENT0, texture: 5 }
    );
    assert_eq!(
        calls[3],
        DriverCall::FramebufferTexture2D { attachment: GL_DEPTH_ATTACHMENT, texture: 6 }
    );
    assert_eq!(calls[4], DriverCall::BindFramebuffer { framebuffer: 17 });
}

#[test]
fn begin_pass_resets_viewport_and_scissor() {
    let mut ctx = GraphicsContext::new(false, 17, 800, 600);
    let color = Texture::from_raw(5, 256, 128);
    let pass = RenderPass::new(&mut ctx, color, None);
    let base = ctx.driver.calls.len();
    ctx.begin_pass(Some(pass), PassAction::Nothing);
    let calls = &ctx.driver.calls[base..];
    assert_eq!(calls.len(), 3);
    assert!(matches!(calls[0], DriverCall::BindFramebuffer { .. }));
    assert_eq!(calls[1], DriverCall::Viewport { x: 0, y: 0, w: 256, h: 128 });
    assert_eq!(calls[2], DriverCall::Scissor { x: 0, y: 0, w: 256, h: 128 });
}

#[test]
fn default_pass_clear_emits_clear_calls() {
    let mut ctx = GraphicsContext::new(false, 17, 800, 600);
    let base = ctx.driver.calls.len();
    let one = 1.0f32.to_bits();
    ctx.begin_default_pass(PassAction::clear_color(one, one, one, one));
    let calls = &ctx.driver.calls[base..];
    assert_eq!(calls[0], DriverCall::BindFramebuffer { framebuffer: 17 });
    assert_eq!(calls[1], DriverCall::Viewport { x: 0, y: 0, w: 800, h: 600 });
    assert_eq!(
        calls[3],
        DriverCall::ClearColor {
            red_bits: one,
            green_bits: one,
            blue_bits: one,
            alpha_bits: one,
        }
    );
    assert_eq!(calls[4], DriverCall::ClearDepth { depth_bits: one });
    assert_eq!(
        calls[5],
        DriverCall::Clear { mask: GL_COLOR_BUFFER_BIT | GL_DEPTH_BUFFER_BIT }
    );
}

#[test]
fn clear_with_no_channels_emits_nothing() {
    let mut driver = glstate::Driver::new();
    Clear::new().apply(&mut driver);
    assert_eq!(driver.calls.len(), 0);
    Clear::new().stencil(1).apply(&mut driver);
    assert_eq!(driver.calls.len(), 2);
    assert_eq!(driver.calls[0], DriverCall::ClearStencil { value: 1 });
}

#[test]
fn end_render_pass_unbinds_buffers() {
    let mut ctx = GraphicsContext::new(false, 17, 800, 600);
    ctx.cache.bind_buffer(&mut ctx.driver, glstate::driver::GL_ARRAY_BUFFER, 4, None);
    ctx.end_render_pass();
    assert_eq!(ctx.cache.vertex_buffer, 0);
    assert_eq!(ctx.cache.index_buffer, 0);
}

#[test]
fn commit_frame_clears_all_bindings() {
    let mut ctx = GraphicsContext::new(false, 17, 800, 600);
    ctx.cache.bind_buffer(&mut ctx.driver, glstate::driver::GL_ARRAY_BUFFER, 4, None);
    ctx.cache.bind_texture(&mut ctx.driver, 1, 9);
    ctx.commit_frame();
    assert_eq!(ctx.cache.vertex_buffer, 0);
    assert_eq!(ctx.cache.index_buffer, 0);
    for slot in ctx.cache.textures.iter() {
        assert_eq!(*slot, 0);
    }
}

#[test]
fn elapsed_query_allocates_once() {
    let mut ctx = GraphicsContext::new(false, 0, 800, 600);
    let mut query = ElapsedQuery::new();
    assert!(!ElapsedQuery::is_supported());
    assert!(!query.is_available());
    assert_eq!(query.get_result(), 0);
    let base = ctx.driver.calls.len();
    query.begin_query(&mut ctx);
    assert!(query.gl_query != 0);
    assert!(matches!(ctx.driver.calls[base], DriverCall::GenQuery { .. }));
    assert!(matches!(
        ctx.driver.calls[base + 1],
        DriverCall::BeginQuery { target: GL_TIME_ELAPSED, .. }
    ));
    query.end_query(&mut ctx);
    assert_eq!(
        *ctx.driver.calls.last().unwrap(),
        DriverCall::EndQuery { target: GL_TIME_ELAPSED }
    );
    let q = query.gl_query;
    query.begin_query(&mut ctx);
    assert_eq!(query.gl_query, q);
    query.delete(&mut ctx);
    assert_eq!(query.gl_query, 0);
    assert_eq!(
        *ctx.driver.calls.last().unwrap(),
        DriverCall::DeleteQuery { query: q }
    );
}
