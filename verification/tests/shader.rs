use rokol_learn_opengl::gfx::command::Command;
use rokol_learn_opengl::gfx::handle::{Pipeline, Program, ResourceState};
use rokol_learn_opengl::gfx::kinds::{CullMode, ImageType, IndexType, UniformType, VertexFormat};
use rokol_learn_opengl::gfx::shader::ShaderError;
use rokol_learn_opengl::gfx::Shader;
use rokol_learn_opengl::shaders::{
    cube, gen, img_type, texture, triangle, ub, LayoutDesc, PipelineDesc, ShaderImageDesc,
    ShaderUniformBlockDesc, TextureVertex, TriangleVertex,
};

fn layout_of(used: &[VertexFormat]) -> LayoutDesc {
    let mut attrs = [VertexFormat::Invalid; 16];
    attrs[..used.len()].copy_from_slice(used);
    LayoutDesc { attrs }
}

#[test]
fn triangle_layout_is_position_then_color() {
    assert_eq!(
        TriangleVertex::layout_desc(),
        layout_of(&[VertexFormat::Float3, VertexFormat::Float4])
    );
}

#[test]
fn texture_layout_is_position_color_uv() {
    assert_eq!(
        TextureVertex::layout_desc(),
        layout_of(&[VertexFormat::Float3, VertexFormat::UByte4N, VertexFormat::Float2])
    );
}

#[test]
fn empty_layout_has_no_stride() {
    assert_eq!(LayoutDesc::empty(), layout_of(&[]));
    assert_eq!(LayoutDesc::empty().stride(), 0);
}

#[test]
fn stride_adds_the_sizes_of_all_attributes() {
    assert_eq!(layout_of(&[VertexFormat::Float4; 16]).stride(), 256);
    assert_eq!(
        layout_of(&[VertexFormat::Float, VertexFormat::Short4N, VertexFormat::Uint10N2]).stride(),
        4 + 8 + 4
    );
}

#[test]
fn vertex_formats_have_their_sizes() {
    let sizes = [
        (VertexFormat::Invalid, 0),
        (VertexFormat::Float, 4),
        (VertexFormat::Float2, 8),
        (VertexFormat::Float3, 12),
        (VertexFormat::Float4, 16),
        (VertexFormat::Byte4, 4),
        (VertexFormat::Byte4N, 4),
        (VertexFormat::UByte4, 4),
        (VertexFormat::UByte4N, 4),
        (VertexFormat::Short2, 4),
        (VertexFormat::Short2N, 4),
        (VertexFormat::UShort2N, 4),
        (VertexFormat::Short4, 8),
        (VertexFormat::Short4N, 8),
        (VertexFormat::UShort4N, 8),
        (VertexFormat::Uint10N2, 4),
    ];
    for (format, size) in sizes {
        assert_eq!(format.size(), size);
    }
}

#[test]
fn triangle_shader_declares_nothing() {
    let setup = triangle(b"void main() {}", b"out vec4 c;");
    assert_eq!(setup.shader.vs, b"void main() {}\0".to_vec());
    assert_eq!(setup.shader.fs, b"out vec4 c;\0".to_vec());
    assert!(setup.shader.vs_uniform_blocks.is_empty());
    assert!(setup.shader.fs_images.is_empty());
    assert_eq!(
        setup.pipeline,
        PipelineDesc {
            shader: Program { id: 0 },
            index_type: IndexType::UInt16,
            layout: TriangleVertex::layout_desc(),
            cull_mode: CullMode::Off,
        }
    );
}

#[test]
fn texture_shader_declares_one_image() {
    let setup = texture(b"vs", b"fs");
    assert_eq!(setup.shader.vs, b"vs\0".to_vec());
    assert_eq!(setup.shader.fs, b"fs\0".to_vec());
    assert!(setup.shader.vs_uniform_blocks.is_empty());
    assert_eq!(
        setup.shader.fs_images,
        vec![ShaderImageDesc { name: "tex", image_type: ImageType::Dim2 }]
    );
    assert_eq!(setup.pipeline.index_type, IndexType::UInt16);
    assert_eq!(setup.pipeline.cull_mode, CullMode::Off);
    assert_eq!(setup.pipeline.layout, TextureVertex::layout_desc());
    assert_eq!(setup.pipeline.shader, Program { id: 0 });
}

#[test]
fn cube_shader_declares_a_matrix_and_an_image() {
    let setup = cube(b"", b"");
    assert_eq!(setup.shader.vs, vec![0u8]);
    assert_eq!(setup.shader.fs, vec![0u8]);
    assert_eq!(
        setup.shader.vs_uniform_blocks,
        vec![ShaderUniformBlockDesc { name: "transform", uniform_type: UniformType::Mat4, size: 64 }]
    );
    assert_eq!(
        setup.shader.fs_images,
        vec![ShaderImageDesc { name: "tex", image_type: ImageType::Dim2 }]
    );
    assert_eq!(setup.pipeline.layout, TextureVertex::layout_desc());
}

#[test]
fn gen_keeps_what_it_is_given() {
    let pip = PipelineDesc {
        shader: Program { id: 0 },
        index_type: IndexType::UInt32,
        layout: layout_of(&[VertexFormat::Float2]),
        cull_mode: CullMode::Back,
    };
    let setup = gen(
        b"a",
        b"bc",
        vec![ub("mvp", UniformType::Mat4, 64), ub("tint", UniformType::Float4, 16)],
        vec![img_type("albedo", ImageType::Cube)],
        pip,
    );
    assert_eq!(setup.shader.vs, vec![b'a', 0]);
    assert_eq!(setup.shader.fs, vec![b'b', b'c', 0]);
    assert_eq!(
        setup.shader.vs_uniform_blocks,
        vec![
            ShaderUniformBlockDesc { name: "mvp", uniform_type: UniformType::Mat4, size: 64 },
            ShaderUniformBlockDesc { name: "tint", uniform_type: UniformType::Float4, size: 16 },
        ]
    );
    assert_eq!(
        setup.shader.fs_images,
        vec![ShaderImageDesc { name: "albedo", image_type: ImageType::Cube }]
    );
    assert_eq!(setup.pipeline, pip);
}

#[test]
fn pipeline_is_made_around_the_compiled_program() {
    let setup = texture(b"vs", b"fs");
    let desc = setup.pipeline_desc(Program { id: 77 }, ResourceState::Valid).unwrap();
    assert_eq!(desc.shader, Program { id: 77 });
    assert_eq!(desc.index_type, setup.pipeline.index_type);
    assert_eq!(desc.layout, setup.pipeline.layout);
    assert_eq!(desc.cull_mode, setup.pipeline.cull_mode);
}

#[test]
fn rejected_program_gives_no_pipeline() {
    // the vertex source uses a uniform that the description does not declare:
    // the device reports the program as failed
    let setup = triangle(b"uniform mat4 undeclared; void main() {}", b"void main() {}");
    for state in [
        ResourceState::Failed,
        ResourceState::Invalid,
        ResourceState::Initial,
        ResourceState::Alloc,
    ] {
        assert_eq!(
            setup.pipeline_desc(Program { id: 5 }, state),
            Err(ShaderError::ProgramRejected)
        );
    }
}

#[test]
fn rejected_program_gives_no_shader() {
    let r = Shader::checked(
        Program { id: 5 },
        ResourceState::Failed,
        Pipeline { id: 6 },
        ResourceState::Valid,
    );
    assert_eq!(r.err(), Some(ShaderError::ProgramRejected));
    // the same answer every time
    let again = Shader::checked(
        Program { id: 5 },
        ResourceState::Failed,
        Pipeline { id: 6 },
        ResourceState::Valid,
    );
    assert_eq!(again.err(), Some(ShaderError::ProgramRejected));
}

#[test]
fn rejected_program_is_reported_before_rejected_pipeline() {
    let r = Shader::checked(
        Program { id: 5 },
        ResourceState::Failed,
        Pipeline { id: 6 },
        ResourceState::Failed,
    );
    assert_eq!(r.err(), Some(ShaderError::ProgramRejected));
}

#[test]
fn rejected_pipeline_gives_no_shader() {
    let r = Shader::checked(
        Program { id: 5 },
        ResourceState::Valid,
        Pipeline { id: 6 },
        ResourceState::Invalid,
    );
    assert_eq!(r.err(), Some(ShaderError::PipelineRejected));
}

#[test]
fn valid_program_and_pipeline_give_a_shader() {
    let shader = Shader::checked(
        Program { id: 5 },
        ResourceState::Valid,
        Pipeline { id: 6 },
        ResourceState::Valid,
    )
    .unwrap();
    assert_eq!(shader.shd(), Program { id: 5 });
    assert_eq!(shader.pip(), Pipeline { id: 6 });
    assert_eq!(shader.apply_pip(), Command::ApplyPipeline { pip: Pipeline { id: 6 } });
}

#[test]
fn releasing_a_shader_destroys_program_and_pipeline() {
    let shader = Shader::new(Program { id: 5 }, Pipeline { id: 6 });
    assert_eq!(
        shader.release(),
        [
            Command::DestroyProgram { shd: Program { id: 5 } },
            Command::DestroyPipeline { pip: Pipeline { id: 6 } },
        ]
    );
}
