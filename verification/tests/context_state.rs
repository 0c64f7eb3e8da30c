use glstate::driver::{GL_BLEND, GL_CULL_FACE, GL_FRONT, GL_SRC_ALPHA, GL_ONE_MINUS_SRC_ALPHA};
use glstate::{
    BlendFactor, BlendState, BlendValue, Buffer, BufferLayout, BufferType, CullFace, DriverCall,
    Equation, GraphicsContext, Pipeline, ProgramOutcome, Shader, ShaderMeta, StageOutcome,
    UniformBlockLayout, VertexAttribute, VertexFormat,
};

fn fresh_context() -> GraphicsContext {
    GraphicsContext::new(false, 0, 800, 600)
}

fn trivial_shader(ctx: &mut GraphicsContext) -> Shader {
    let meta = ShaderMeta { uniforms: UniformBlockLayout { uniforms: Vec::new() }, images: Vec::new() };
    let outcome = ProgramOutcome {
        program: 42,
        vertex: StageOutcome::Compiled,
        fragment: StageOutcome::Compiled,
        link: None,
        uniform_locations: Vec::new(),
        image_locations: Vec::new(),
    };
    Shader::new(ctx, "v", "f", meta, outcome).unwrap()
}

fn default_pipeline(ctx: &mut GraphicsContext) -> Pipeline {
    let shader = trivial_shader(ctx);
    let buffers = vec![BufferLayout::default()];
    let attributes = vec![VertexAttribute::new("position", VertexFormat::Float2)];
    let locations = vec![Some(0u32)];
    Pipeline::new(ctx, &buffers, &attributes, shader, &locations)
}

#[test]
fn set_cull_face_elides_redundant_calls() {
    let mut ctx = fresh_context();
    let base = ctx.driver.calls.len();
    ctx.set_cull_face(CullFace::Front);
    assert_eq!(ctx.driver.calls.len(), base + 2);
    assert_eq!(ctx.driver.calls[base], DriverCall::Enable { cap: GL_CULL_FACE });
    assert_eq!(ctx.driver.calls[base + 1], DriverCall::CullFace { mode: GL_FRONT });
    // Same value again: zero additional calls.
    ctx.set_cull_face(CullFace::Front);
    assert_eq!(ctx.driver.calls.len(), base + 2);
    ctx.set_cull_face(CullFace::Nothing);
    assert_eq!(ctx.driver.calls.len(), base + 3);
    assert_eq!(ctx.driver.calls[base + 2], DriverCall::Disable { cap: GL_CULL_FACE });
}

#[test]
fn set_blend_transitions_enable_and_disable_once() {
    let mut ctx = fresh_context();
    let base = ctx.driver.calls.len();
    let alpha = BlendState::new(
        Equation::Add,
        BlendFactor::Value(BlendValue::SourceAlpha),
        BlendFactor::OneMinusValue(BlendValue::SourceAlpha),
    );
    ctx.set_blend(Some(alpha), None);
    assert_eq!(ctx.driver.calls.len(), base + 3);
    assert_eq!(ctx.driver.calls[base], DriverCall::Enable { cap: GL_BLEND });
    assert_eq!(
        ctx.driver.calls[base + 1],
        DriverCall::BlendFunc { sfactor: GL_SRC_ALPHA, dfactor: GL_ONE_MINUS_SRC_ALPHA }
    );
    // Same state again: zero additional calls.
    ctx.set_blend(Some(alpha), None);
    assert_eq!(ctx.driver.calls.len(), base + 3);
    // Changing only the factors does not re-enable blending.
    let replace = BlendState::new(Equation::Add, BlendFactor::One, BlendFactor::Zero);
    ctx.set_blend(Some(replace), None);
    assert_eq!(ctx.driver.calls.len(), base + 5);
    // Turning blending off disables it exactly once.
    ctx.set_blend(None, None);
    assert_eq!(ctx.driver.calls.len(), base + 6);
    assert_eq!(ctx.driver.calls[base + 5], DriverCall::Disable { cap: GL_BLEND });
    ctx.set_blend(None, None);
    assert_eq!(ctx.driver.calls.len(), base + 6);
}

#[test]
fn set_color_write_elides_redundant_calls() {
    let mut ctx = fresh_context();
    let base = ctx.driver.calls.len();
    ctx.set_color_write((true, true, true, true));
    assert_eq!(ctx.driver.calls.len(), base);
    ctx.set_color_write((true, true, true, false));
    assert_eq!(ctx.driver.calls.len(), base + 1);
    assert_eq!(
        ctx.driver.calls[base],
        DriverCall::ColorMask { red: true, green: true, blue: true, alpha: false }
    );
}

#[test]
fn apply_pipeline_twice_issues_nothing() {
    let mut ctx = fresh_context();
    let pipeline = default_pipeline(&mut ctx);
    let base = ctx.driver.calls.len();
    ctx.apply_pipeline(&pipeline);
    let after_first = ctx.driver.calls.len();
    let first: Vec<DriverCall> = ctx.driver.calls[base..].to_vec();
    // The first application issues the activation prefix: program, scissor,
    // depth, winding (the default state matches the fresh cache).
    assert_eq!(first.len(), 4);
    assert!(matches!(first[0], DriverCall::UseProgram { program: 42 }));
    assert!(matches!(first[3], DriverCall::FrontFace { .. }));
    // The second identical application issues zero additional driver calls.
    ctx.apply_pipeline(&pipeline);
    assert_eq!(ctx.driver.calls.len(), after_first);
}

#[test]
fn instancing_gate_skips_draw() {
    // A context without instancing support skips a multi-instance draw
    // entirely and returns without error.
    let mut ctx = GraphicsContext::new(true, 0, 800, 600);
    assert!(!ctx.features().instancing);
    let pipeline = default_pipeline(&mut ctx);
    ctx.apply_pipeline(&pipeline);
    let before = ctx.driver.calls.len();
    ctx.draw(0, 6, 2);
    assert_eq!(ctx.driver.calls.len(), before);
}

#[test]
fn buffer_update_at_exact_capacity_keeps_size() {
    let mut ctx = fresh_context();
    let data = vec![0u8; 64];
    let buffer = Buffer::immutable(&mut ctx, BufferType::VertexBuffer, &data, None);
    assert_eq!(buffer.size(), 64);
    let replacement = vec![1u8; 64];
    buffer.update(&mut ctx, &replacement);
    assert_eq!(buffer.size(), 64);
    // The update rebinds the buffer, uploads the payload span, and restores
    // the caller's binding.
    assert!(ctx
        .driver
        .calls
        .iter()
        .any(|c| matches!(c, DriverCall::BufferSubData { offset: 0, size: 64, .. })));
}

#[test]
fn buffer_update_restores_callers_binding() {
    let mut ctx = fresh_context();
    let data = vec![0u8; 16];
    let first = Buffer::immutable(&mut ctx, BufferType::VertexBuffer, &data, None);
    let second = Buffer::immutable(&mut ctx, BufferType::VertexBuffer, &data, None);
    ctx.cache.bind_buffer(
        &mut ctx.driver,
        glstate::driver::GL_ARRAY_BUFFER,
        first.gl_buf,
        None,
    );
    second.update(&mut ctx, &data);
    assert_eq!(ctx.cache.vertex_buffer, first.gl_buf);
}

#[test]
fn buffer_creation_restores_empty_binding() {
    // With nothing bound before creation, the temporary binding made for the
    // upload is undone: the caller sees an empty binding afterward.
    let mut ctx = fresh_context();
    let data = vec![0u8; 16];
    Buffer::immutable(&mut ctx, BufferType::VertexBuffer, &data, None);
    assert_eq!(ctx.cache.vertex_buffer, 0);
    assert_eq!(
        *ctx.driver.calls.last().unwrap(),
        DriverCall::BindBuffer { target: glstate::driver::GL_ARRAY_BUFFER, buffer: 0 }
    );
}

#[test]
fn stream_buffers_take_fresh_names() {
    let mut ctx = fresh_context();
    let a = Buffer::stream(&mut ctx, BufferType::VertexBuffer, 128);
    let b = glstate::Buffer::index_stream(&mut ctx, glstate::IndexType::Int, 32);
    assert_ne!(a.gl_buf, b.gl_buf);
    assert_eq!(a.index_type, None);
    assert_eq!(b.index_type, Some(glstate::IndexType::Int));
    assert_eq!(b.size(), 32);
}
