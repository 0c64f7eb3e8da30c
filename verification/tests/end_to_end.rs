use glstate::driver::{GL_TRIANGLES, GL_UNSIGNED_SHORT};
use glstate::{
    Bindings, Buffer, BufferLayout, BufferType, DriverCall, GraphicsContext, IndexType, Pipeline,
    ProgramOutcome, Shader, ShaderMeta, StageOutcome, UniformBlockLayout, UniformDesc,
    UniformType, VertexAttribute, VertexFormat,
};

fn identity_mat4_words() -> Vec<u32> {
    let mut m = [0.0f32; 16];
    m[0] = 1.0;
    m[5] = 1.0;
    m[10] = 1.0;
    m[15] = 1.0;
    m.iter().map(|f| f.to_bits()).collect()
}

#[test]
fn full_frame_issues_one_indexed_draw() {
    let mut ctx = GraphicsContext::new(false, 0, 800, 600);

    // An immutable vertex buffer of 4 vertices, 16 bytes each (2 x Float2).
    let vertex_bytes = vec![0u8; 64];
    let vertex_buffer =
        Buffer::immutable(&mut ctx, BufferType::VertexBuffer, &vertex_bytes, None);
    assert_eq!(vertex_buffer.size(), 64);

    // An index buffer of 6 16-bit indices forming 2 triangles.
    let indices: [u16; 6] = [0, 1, 2, 0, 2, 3];
    let mut index_bytes: Vec<u8> = Vec::new();
    for i in indices.iter() {
        index_bytes.extend_from_slice(&i.to_le_bytes());
    }
    let index_buffer = Buffer::immutable(
        &mut ctx,
        BufferType::IndexBuffer,
        &index_bytes,
        Some(IndexType::for_type::<u16>()),
    );
    assert_eq!(index_buffer.size(), 12);

    // A shader exposing attributes "pos" and "uv" and one Mat4 uniform "mvp".
    let meta = ShaderMeta {
        uniforms: UniformBlockLayout {
            uniforms: vec![UniformDesc::new(String::from("mvp"), UniformType::Mat4, 1)],
        },
        images: Vec::new(),
    };
    let outcome = ProgramOutcome {
        program: 9,
        vertex: StageOutcome::Compiled,
        fragment: StageOutcome::Compiled,
        link: None,
        uniform_locations: vec![Some(0)],
        image_locations: Vec::new(),
    };
    let shader = Shader::new(&mut ctx, "v", "f", meta, outcome).unwrap();

    // A pipeline with default parameters over the declared layout.
    let buffers = vec![BufferLayout::default()];
    let attributes = vec![
        VertexAttribute::new("pos", VertexFormat::Float2),
        VertexAttribute::new("uv", VertexFormat::Float2),
    ];
    let locations = vec![Some(0u32), Some(1u32)];
    let pipeline = Pipeline::new(&mut ctx, &buffers, &attributes, shader, &locations);
    assert_eq!(ctx.pipelines[0].layout[0].unwrap().stride, 16);

    ctx.apply_pipeline(&pipeline);
    let bindings = Bindings {
        vertex_buffers: vec![vertex_buffer],
        index_buffer,
        images: Vec::new(),
    };
    ctx.apply_bindings(&bindings);
    assert_eq!(ctx.cache.index_buffer, index_buffer.gl_buf);

    ctx.apply_uniforms(&identity_mat4_words());
    ctx.draw(0, 6, 1);

    // Exactly one uniform upload, targeting word offset 0 with array count 1.
    let uploads: Vec<&DriverCall> = ctx
        .driver
        .calls
        .iter()
        .filter(|c| matches!(c, DriverCall::UploadUniform { .. }))
        .collect();
    assert_eq!(uploads.len(), 1);
    assert_eq!(
        *uploads[0],
        DriverCall::UploadUniform {
            location: 0,
            uniform_type: UniformType::Mat4,
            array_count: 1,
            word_offset: 0,
        }
    );

    // Exactly one indexed draw with element count 6 and offset 0.
    let draws: Vec<&DriverCall> = ctx
        .driver
        .calls
        .iter()
        .filter(|c| {
            matches!(
                c,
                DriverCall::DrawElements { .. } | DriverCall::DrawElementsInstanced { .. }
            )
        })
        .collect();
    assert_eq!(draws.len(), 1);
    assert_eq!(
        *draws[0],
        DriverCall::DrawElementsInstanced {
            mode: GL_TRIANGLES,
            count: 6,
            index_type: GL_UNSIGNED_SHORT,
            offset: 0,
            instances: 1,
        }
    );

    // A second identical binding application issues no attribute calls.
    let before = ctx.driver.calls.len();
    ctx.apply_bindings(&bindings);
    let appended: Vec<DriverCall> = ctx.driver.calls[before..].to_vec();
    assert!(appended
        .iter()
        .all(|c| !matches!(c, DriverCall::VertexAttribPointer { .. })));
    assert!(appended
        .iter()
        .all(|c| !matches!(c, DriverCall::BindBuffer { .. })));
}

#[test]
fn draw_offset_scales_with_index_width() {
    let mut ctx = GraphicsContext::new(false, 0, 800, 600);
    let meta = ShaderMeta { uniforms: UniformBlockLayout { uniforms: Vec::new() }, images: Vec::new() };
    let outcome = ProgramOutcome {
        program: 3,
        vertex: StageOutcome::Compiled,
        fragment: StageOutcome::Compiled,
        link: None,
        uniform_locations: Vec::new(),
        image_locations: Vec::new(),
    };
    let shader = Shader::new(&mut ctx, "v", "f", meta, outcome).unwrap();
    let buffers = vec![BufferLayout::default()];
    let attributes = vec![VertexAttribute::new("pos", VertexFormat::Float2)];
    let locations = vec![Some(0u32)];
    let pipeline = Pipeline::new(&mut ctx, &buffers, &attributes, shader, &locations);

    let vertex_bytes = vec![0u8; 32];
    let vertex_buffer = Buffer::immutable(&mut ctx, BufferType::VertexBuffer, &vertex_bytes, None);
    let index_bytes = vec![0u8; 24];
    let index_buffer = Buffer::immutable(
        &mut ctx,
        BufferType::IndexBuffer,
        &index_bytes,
        Some(IndexType::Int),
    );
    ctx.apply_pipeline(&pipeline);
    let bindings =
        Bindings { vertex_buffers: vec![vertex_buffer], index_buffer, images: Vec::new() };
    ctx.apply_bindings(&bindings);
    ctx.draw(3, 3, 1);
    let last = *ctx.driver.calls.last().unwrap();
    // 4-byte indices: base element 3 starts 12 bytes in.
    assert_eq!(
        last,
        DriverCall::DrawElementsInstanced {
            mode: GL_TRIANGLES,
            count: 3,
            index_type: glstate::driver::GL_UNSIGNED_INT,
            offset: 12,
            instances: 1,
        }
    );
}
