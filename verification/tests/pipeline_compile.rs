use glstate::driver::GL_FLOAT;
use glstate::{
    BlendFactor, BlendState, BufferLayout, Equation, GraphicsContext, Pipeline, PipelineConf,
    ProgramOutcome, Shader, ShaderMeta, StageOutcome, UniformBlockLayout, VertexAttribute,
    VertexFormat, VertexStep,
};

fn fresh_context() -> GraphicsContext {
    GraphicsContext::new(false, 0, 800, 600)
}

fn trivial_shader(ctx: &mut GraphicsContext) -> Shader {
    let meta = ShaderMeta { uniforms: UniformBlockLayout { uniforms: Vec::new() }, images: Vec::new() };
    let outcome = ProgramOutcome {
        program: 42,
        vertex: StageOutcome::Compiled,
        fragment: StageOutcome::Compiled,
        link: None,
        uniform_locations: Vec::new(),
        image_locations: Vec::new(),
    };
    Shader::new(ctx, "vertex source", "fragment source", meta, outcome).unwrap()
}

#[test]
fn stride_auto_computation() {
    // Declared stride 0 with [Float3, Float2]: computed stride 3*4 + 2*4 = 20,
    // first attribute at offset 0, second at offset 12.
    let mut ctx = fresh_context();
    let shader = trivial_shader(&mut ctx);
    let buffers = vec![BufferLayout::default()];
    let attributes = vec![
        VertexAttribute::new("position", VertexFormat::Float3),
        VertexAttribute::new("uv", VertexFormat::Float2),
    ];
    let locations = vec![Some(0u32), Some(1u32)];
    let pipeline = Pipeline::new(&mut ctx, &buffers, &attributes, shader, &locations);
    assert_eq!(pipeline.0, 0);
    let layout = &ctx.pipelines[0].layout;
    assert_eq!(layout.len(), 2);
    let first = layout[0].unwrap();
    assert_eq!(first.offset, 0);
    assert_eq!(first.stride, 20);
    assert_eq!(first.size, 3);
    let second = layout[1].unwrap();
    assert_eq!(second.offset, 12);
    assert_eq!(second.stride, 20);
    assert_eq!(second.size, 2);
}

#[test]
fn matrix_attribute_expansion() {
    // One Mat4 attribute alone in its buffer compiles to 4 consecutive
    // Float4 slots at offsets 0, 16, 32, 48.
    let mut ctx = fresh_context();
    let shader = trivial_shader(&mut ctx);
    let buffers = vec![BufferLayout::default()];
    let attributes = vec![VertexAttribute::new("model", VertexFormat::Mat4)];
    let locations = vec![Some(0u32)];
    Pipeline::new(&mut ctx, &buffers, &attributes, shader, &locations);
    let layout = &ctx.pipelines[0].layout;
    assert_eq!(layout.len(), 4);
    for slot in 0..4usize {
        let entry = layout[slot].unwrap();
        assert_eq!(entry.attr_loc, slot as u32);
        assert_eq!(entry.size, 4);
        assert_eq!(entry.type_, GL_FLOAT);
        assert_eq!(entry.offset, 16 * slot as i64);
        assert_eq!(entry.stride, 64);
        assert_eq!(entry.divisor, 0);
    }
}

#[test]
fn unresolved_attribute_still_advances_offsets() {
    // The middle attribute's variable was optimized out: it produces no
    // table entry, but the third attribute keeps its spacing.
    let mut ctx = fresh_context();
    let shader = trivial_shader(&mut ctx);
    let buffers = vec![BufferLayout::default()];
    let attributes = vec![
        VertexAttribute::new("position", VertexFormat::Float3),
        VertexAttribute::new("normal", VertexFormat::Float3),
        VertexAttribute::new("uv", VertexFormat::Float2),
    ];
    let locations = vec![Some(0u32), None, Some(1u32)];
    Pipeline::new(&mut ctx, &buffers, &attributes, shader, &locations);
    let layout = &ctx.pipelines[0].layout;
    assert_eq!(layout.len(), 3);
    assert_eq!(layout[0].unwrap().offset, 0);
    assert_eq!(layout[1].unwrap().offset, 24);
    assert_eq!(layout[2], None);
    assert_eq!(layout[0].unwrap().stride, 32);
}

#[test]
fn declared_stride_is_authoritative() {
    let mut ctx = fresh_context();
    let shader = trivial_shader(&mut ctx);
    let buffers = vec![BufferLayout { stride: 40, ..BufferLayout::default() }];
    let attributes = vec![
        VertexAttribute::new("position", VertexFormat::Float3),
        VertexAttribute::new("uv", VertexFormat::Float2),
    ];
    let locations = vec![Some(0u32), Some(1u32)];
    Pipeline::new(&mut ctx, &buffers, &attributes, shader, &locations);
    let layout = &ctx.pipelines[0].layout;
    assert_eq!(layout[0].unwrap().stride, 40);
    assert_eq!(layout[1].unwrap().stride, 40);
    assert_eq!(layout[1].unwrap().offset, 12);
}

#[test]
fn per_instance_buffer_sets_divisor() {
    let mut ctx = fresh_context();
    let shader = trivial_shader(&mut ctx);
    let buffers = vec![
        BufferLayout::default(),
        BufferLayout { step_func: VertexStep::PerInstance, step_rate: 2, ..BufferLayout::default() },
    ];
    let attributes = vec![
        VertexAttribute::new("position", VertexFormat::Float2),
        VertexAttribute::with_buffer("offset", VertexFormat::Float2, 1),
    ];
    let locations = vec![Some(0u32), Some(1u32)];
    Pipeline::new(&mut ctx, &buffers, &attributes, shader, &locations);
    let layout = &ctx.pipelines[0].layout;
    assert_eq!(layout[0].unwrap().divisor, 0);
    assert_eq!(layout[1].unwrap().divisor, 2);
    assert_eq!(layout[1].unwrap().buffer_index, 1);
}

#[test]
fn pipeline_set_blend_replaces_color_blend() {
    let mut ctx = fresh_context();
    let shader = trivial_shader(&mut ctx);
    let buffers = vec![BufferLayout::default()];
    let attributes = vec![VertexAttribute::new("position", VertexFormat::Float2)];
    let locations = vec![Some(0u32)];
    let pipeline = Pipeline::new(&mut ctx, &buffers, &attributes, shader, &locations);
    let blend = BlendState::new(Equation::Add, BlendFactor::One, BlendFactor::Zero);
    pipeline.set_blend(&mut ctx, Some(blend));
    assert_eq!(ctx.pipelines[0].params.color_blend, Some(blend));
    let conf = PipelineConf::default();
    assert_eq!(ctx.pipelines[0].params.primitive_type, conf.primitive_type);
}
