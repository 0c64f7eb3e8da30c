use glstate::driver::{
    GL_FLOAT, GL_FUNC_ADD, GL_FUNC_REVERSE_SUBTRACT, GL_FUNC_SUBTRACT, GL_LEQUAL, GL_LINES,
    GL_SRC_ALPHA, GL_TRIANGLES, GL_UNSIGNED_BYTE, GL_UNSIGNED_INT, GL_UNSIGNED_SHORT,
};
use glstate::tables::{
    gl_blend_factor, gl_comparison, gl_equation, gl_index_type, gl_primitive_type, gl_stencil_op,
};
use glstate::{
    BlendFactor, BlendValue, Comparison, Equation, GraphicsContext, IndexType, PrimitiveType,
    ProgramOutcome, Shader, ShaderError, ShaderMeta, ShaderType, StageOutcome, StencilOp,
    UniformBlockLayout, UniformDesc, UniformType, VertexFormat,
};

#[test]
fn vertex_format_sizes_and_types() {
    assert_eq!(VertexFormat::Float3.size(), 3);
    assert_eq!(VertexFormat::Float3.byte_len(), 12);
    assert_eq!(VertexFormat::Float3.type_(), GL_FLOAT);
    assert_eq!(VertexFormat::Byte4.byte_len(), 4);
    assert_eq!(VertexFormat::Byte4.type_(), GL_UNSIGNED_BYTE);
    assert_eq!(VertexFormat::Short2.byte_len(), 4);
    assert_eq!(VertexFormat::Short2.type_(), GL_UNSIGNED_SHORT);
    assert_eq!(VertexFormat::Int1.type_(), GL_UNSIGNED_INT);
    assert_eq!(VertexFormat::Mat4.size(), 16);
    assert_eq!(VertexFormat::Mat4.byte_len(), 64);
}

#[test]
fn enum_translation_tables() {
    assert_eq!(gl_equation(Equation::Add), GL_FUNC_ADD);
    assert_eq!(gl_equation(Equation::Subtract), GL_FUNC_SUBTRACT);
    assert_eq!(gl_equation(Equation::ReverseSubtract), GL_FUNC_REVERSE_SUBTRACT);
    assert_eq!(
        gl_blend_factor(BlendFactor::Value(BlendValue::SourceAlpha)),
        GL_SRC_ALPHA
    );
    assert_eq!(gl_stencil_op(StencilOp::Keep), 0x1E00);
    assert_eq!(gl_comparison(Comparison::LessOrEqual), GL_LEQUAL);
    assert_eq!(gl_primitive_type(PrimitiveType::Triangles), GL_TRIANGLES);
    assert_eq!(gl_primitive_type(PrimitiveType::Lines), GL_LINES);
    assert_eq!(gl_index_type(IndexType::Short), GL_UNSIGNED_SHORT);
}

#[test]
fn index_type_for_element_widths() {
    assert_eq!(IndexType::for_type::<u8>(), IndexType::Byte);
    assert_eq!(IndexType::for_type::<u16>(), IndexType::Short);
    assert_eq!(IndexType::for_type::<u32>(), IndexType::Int);
    assert_eq!(IndexType::Byte.size(), 1);
    assert_eq!(IndexType::Short.size(), 2);
    assert_eq!(IndexType::Int.size(), 4);
}

fn empty_meta() -> ShaderMeta {
    ShaderMeta { uniforms: UniformBlockLayout { uniforms: Vec::new() }, images: Vec::new() }
}

#[test]
fn shader_compilation_error_reports_stage() {
    let mut ctx = GraphicsContext::new(false, 0, 800, 600);
    let calls_before = ctx.driver.calls.len();
    let outcome = ProgramOutcome {
        program: 1,
        vertex: StageOutcome::Failed(String::from("syntax error")),
        fragment: StageOutcome::Compiled,
        link: None,
        uniform_locations: Vec::new(),
        image_locations: Vec::new(),
    };
    let r = Shader::new(&mut ctx, "bad", "ok", empty_meta(), outcome);
    match r {
        Err(ShaderError::CompilationError { shader_type: ShaderType::Vertex, error_message }) => {
            assert_eq!(error_message, "syntax error");
        }
        other => panic!("unexpected result: {:?}", other.map(|_| ())),
    }
    // A failed creation leaves the context untouched.
    assert_eq!(ctx.driver.calls.len(), calls_before);
    assert_eq!(ctx.shaders.len(), 0);
}

#[test]
fn shader_link_error_carries_message() {
    let mut ctx = GraphicsContext::new(false, 0, 800, 600);
    let outcome = ProgramOutcome {
        program: 1,
        vertex: StageOutcome::Compiled,
        fragment: StageOutcome::Compiled,
        link: Some(String::from("unresolved varying")),
        uniform_locations: Vec::new(),
        image_locations: Vec::new(),
    };
    let r = Shader::new(&mut ctx, "v", "f", empty_meta(), outcome);
    match r {
        Err(ShaderError::LinkError(message)) => assert_eq!(message, "unresolved varying"),
        other => panic!("unexpected result: {:?}", other.map(|_| ())),
    }
}

#[test]
fn shader_nul_in_source_is_rejected() {
    let mut ctx = GraphicsContext::new(false, 0, 800, 600);
    let outcome = ProgramOutcome {
        program: 1,
        vertex: StageOutcome::Compiled,
        fragment: StageOutcome::Compiled,
        link: None,
        uniform_locations: Vec::new(),
        image_locations: Vec::new(),
    };
    let r = Shader::new(&mut ctx, "ab\0cd", "f", empty_meta(), outcome);
    match r {
        Err(ShaderError::FFINulError(e)) => assert_eq!(e.nul_position, 2),
        other => panic!("unexpected result: {:?}", other.map(|_| ())),
    }
}

#[test]
fn shader_uniform_schema_offsets() {
    let mut ctx = GraphicsContext::new(false, 0, 800, 600);
    let meta = ShaderMeta {
        uniforms: UniformBlockLayout {
            uniforms: vec![
                UniformDesc::new(String::from("mvp"), UniformType::Mat4, 1),
                UniformDesc::new(String::from("tint"), UniformType::Float4, 2),
                UniformDesc::new(String::from("mode"), UniformType::Int1, 1),
            ],
        },
        images: vec![String::from("albedo")],
    };
    let outcome = ProgramOutcome {
        program: 7,
        vertex: StageOutcome::Compiled,
        fragment: StageOutcome::Compiled,
        link: None,
        uniform_locations: vec![Some(0), None, Some(5)],
        image_locations: vec![Some(3)],
    };
    let shader = Shader::new(&mut ctx, "v", "f", meta, outcome).unwrap();
    assert_eq!(shader.0, 0);
    let internal = &ctx.shaders[0];
    assert_eq!(internal.program, 7);
    assert_eq!(internal.images.len(), 1);
    assert_eq!(internal.images[0].gl_loc, Some(3));
    assert_eq!(internal.uniforms.len(), 3);
    assert_eq!(internal.uniforms[0].offset, 0);
    assert_eq!(internal.uniforms[0].size, 64);
    assert_eq!(internal.uniforms[1].offset, 64);
    assert_eq!(internal.uniforms[1].gl_loc, None);
    assert_eq!(internal.uniforms[1].array_count, 2);
    // 64 bytes of matrix plus two Float4 elements.
    assert_eq!(internal.uniforms[2].offset, 96);
    assert_eq!(internal.uniforms[2].uniform_type, UniformType::Int1);
}
