//! Vertex formats and shader pipelines of the examples.
//!
//! The names of uniforms and images must be the ones that the shader sources
//! use: the device rejects a program whose sources name anything else.

use vstd::prelude::*;

use crate::gfx::bytes::{le_bytes_u32, push_u32_le};
use crate::gfx::handle::{Program, ResourceState, INVALID_ID};
use crate::gfx::kinds::{CullMode, ImageType, IndexType, UniformType, VertexFormat};
use crate::gfx::mesh::Vertex;
use crate::gfx::shader::ShaderError;

verus! {

/// Number of attribute slots of a vertex layout.
pub const MAX_VERTEX_ATTRIBUTES: usize = 16;

/// The formats of the attributes of a vertex, in the order of its bytes.
/// Unused slots are `Invalid`.
#[derive(Debug, Clone, Copy, PartialEq, Eq)]
pub struct LayoutDesc {
    pub attrs: [VertexFormat; 16],
}

/// Bytes that attributes of the formats `attrs` take together.
pub open spec fn attrs_size(attrs: Seq<VertexFormat>) -> nat
    decreases attrs.len(),
{
    if attrs.len() == 0 {
        0
    } else {
        attrs_size(attrs.drop_last()) + attrs.last().spec_size()
    }
}

impl LayoutDesc {
    /// Bytes from one vertex to the next.
    pub open spec fn spec_stride(&self) -> nat {
        attrs_size(self.attrs@)
    }

    /// A layout whose first attributes have the formats `used`.
    pub open spec fn starts_with(&self, used: Seq<VertexFormat>) -> bool {
        &&& used.len() <= 16
        &&& forall|i: int| 0 <= i < used.len() ==> #[trigger] self.attrs[i] == used[i]
        &&& forall|i: int| used.len() <= i < 16 ==> #[trigger] self.attrs[i] == VertexFormat::Invalid
    }

    /// A layout without attributes.
    pub fn empty() -> (desc: Self)
        ensures
            desc.starts_with(Seq::empty()),
    {
        let no = VertexFormat::Invalid;
        LayoutDesc { attrs: [no, no, no, no, no, no, no, no, no, no, no, no, no, no, no, no] }
    }

    /// Bytes from one vertex to the next.
    pub fn stride(&self) -> (n: usize)
        ensures
            n == self.spec_stride(),
    {
        let mut n: usize = 0;
        let mut i: usize = 0;
        while i < MAX_VERTEX_ATTRIBUTES
            invariant
                i <= 16,
                n == attrs_size(self.attrs@.take(i as int)),
                n <= 16 * i,
            decreases 16 - i,
        {
            proof {
                let next = self.attrs@.take(i + 1);
                assert(next.drop_last() =~= self.attrs@.take(i as int));
                assert(next.last() == self.attrs@[i as int]);
            }
            n = n + self.attrs[i].size();
            i = i + 1;
        }
        assert(self.attrs@.take(16) =~= self.attrs@);
        n
    }
}

/// A vertex with a position and a color of four reals.
///
/// Every real is held by its single-precision bit pattern.
#[derive(Debug, Clone, Copy, PartialEq, Eq)]
pub struct TriangleVertex {
    /// X, Y, Z
    pub pos: [u32; 3],
    /// R, G, B, A
    pub color: [u32; 4],
}

impl TriangleVertex {
    /// A vertex of the two attributes given.
    pub fn new(pos: [u32; 3], color: [u32; 4]) -> (v: Self)
        ensures
            v.pos == pos,
            v.color == color,
    {
        TriangleVertex { pos, color }
    }

    /// Three reals, then four reals.
    pub fn layout_desc() -> (desc: LayoutDesc)
        ensures
            desc.starts_with(seq![VertexFormat::Float3, VertexFormat::Float4]),
    {
        let mut desc = LayoutDesc::empty();
        desc.attrs[0] = VertexFormat::Float3;
        desc.attrs[1] = VertexFormat::Float4;
        desc
    }
}

impl Vertex for TriangleVertex {
    open spec fn bytes(&self) -> Seq<u8> {
        le_bytes_u32(self.pos[0]) + le_bytes_u32(self.pos[1]) + le_bytes_u32(self.pos[2])
            + le_bytes_u32(self.color[0]) + le_bytes_u32(self.color[1]) + le_bytes_u32(
            self.color[2],
        ) + le_bytes_u32(self.color[3])
    }

    fn write_bytes(&self, out: &mut Vec<u8>) {
        push_u32_le(out, self.pos[0]);
        push_u32_le(out, self.pos[1]);
        push_u32_le(out, self.pos[2]);
        push_u32_le(out, self.color[0]);
        push_u32_le(out, self.color[1]);
        push_u32_le(out, self.color[2]);
        push_u32_le(out, self.color[3]);
        assert(out@ =~= old(out)@ + self.bytes());
    }
}

/// A vertex with a position, a color of four bytes and a texture coordinate.
///
/// Every real is held by its single-precision bit pattern.
#[derive(Debug, Clone, Copy, PartialEq, Eq)]
pub struct TextureVertex {
    /// X, Y, Z
    pub pos: [u32; 3],
    /// R, G, B, A
    pub color: [u8; 4],
    /// U, V
    pub uv: [u32; 2],
}

impl TextureVertex {
    /// A vertex of the three attributes given.
    pub fn new(pos: [u32; 3], color: [u8; 4], uv: [u32; 2]) -> (v: Self)
        ensures
            v.pos == pos,
            v.color == color,
            v.uv == uv,
    {
        TextureVertex { pos, color, uv }
    }

    /// Three reals, four bytes that are read as fractions of 255, two reals.
    pub fn layout_desc() -> (desc: LayoutDesc)
        ensures
            desc.starts_with(
                seq![VertexFormat::Float3, VertexFormat::UByte4N, VertexFormat::Float2],
            ),
    {
        let mut desc = LayoutDesc::empty();
        desc.attrs[0] = VertexFormat::Float3;
        desc.attrs[1] = VertexFormat::UByte4N;
        desc.attrs[2] = VertexFormat::Float2;
        desc
    }
}

impl Vertex for TextureVertex {
    open spec fn bytes(&self) -> Seq<u8> {
        le_bytes_u32(self.pos[0]) + le_bytes_u32(self.pos[1]) + le_bytes_u32(self.pos[2])
            + self.color@ + le_bytes_u32(self.uv[0]) + le_bytes_u32(self.uv[1])
    }

    fn write_bytes(&self, out: &mut Vec<u8>) {
        push_u32_le(out, self.pos[0]);
        push_u32_le(out, self.pos[1]);
        push_u32_le(out, self.pos[2]);
        out.push(self.color[0]);
        out.push(self.color[1]);
        out.push(self.color[2]);
        out.push(self.color[3]);
        push_u32_le(out, self.uv[0]);
        push_u32_le(out, self.uv[1]);
        assert(out@ =~= old(out)@ + self.bytes());
    }
}

/// The cube is drawn with textured vertices.
pub type CubeVertex = TextureVertex;

/// Unused attribute slots at the end of a layout take no bytes.
pub proof fn lemma_attrs_size_used(attrs: Seq<VertexFormat>, used: int)
    requires
        0 <= used <= attrs.len(),
        forall|i: int| used <= i < attrs.len() ==> attrs[i] == VertexFormat::Invalid,
    ensures
        attrs_size(attrs) == attrs_size(attrs.take(used)),
    decreases attrs.len(),
{
    if used == attrs.len() {
        assert(attrs.take(used) =~= attrs);
    } else {
        lemma_attrs_size_used(attrs.drop_last(), used);
        assert(attrs.drop_last().take(used) =~= attrs.take(used));
    }
}

/// The bytes of a triangle vertex fill the stride of its layout: 28 bytes.
pub proof fn lemma_triangle_vertex_fills_layout(v: TriangleVertex, desc: LayoutDesc)
    requires
        desc.starts_with(seq![VertexFormat::Float3, VertexFormat::Float4]),
    ensures
        v.bytes().len() == desc.spec_stride(),
        desc.spec_stride() == 28,
{
    lemma_attrs_size_used(desc.attrs@, 2);
    let used = desc.attrs@.take(2);
    assert(used.drop_last() =~= seq![VertexFormat::Float3]);
    assert(used.drop_last().drop_last() =~= Seq::<VertexFormat>::empty());
    reveal_with_fuel(attrs_size, 3);
}

/// The bytes of a textured vertex fill the stride of its layout: 24 bytes.
pub proof fn lemma_texture_vertex_fills_layout(v: TextureVertex, desc: LayoutDesc)
    requires
        desc.starts_with(
            seq![VertexFormat::Float3, VertexFormat::UByte4N, VertexFormat::Float2],
        ),
    ensures
        v.bytes().len() == desc.spec_stride(),
        desc.spec_stride() == 24,
{
    lemma_attrs_size_used(desc.attrs@, 3);
    let used = desc.attrs@.take(3);
    assert(used.drop_last() =~= seq![VertexFormat::Float3, VertexFormat::UByte4N]);
    assert(used.drop_last().drop_last() =~= seq![VertexFormat::Float3]);
    assert(used.drop_last().drop_last().drop_last() =~= Seq::<VertexFormat>::empty());
    reveal_with_fuel(attrs_size, 4);
}

/// An image that the fragment stage samples.
#[derive(Debug, Clone, Copy, PartialEq, Eq)]
pub struct ShaderImageDesc {
    /// Name of the sampler in the shader source
    pub name: &'static str,
    pub image_type: ImageType,
}

/// A uniform block of a single uniform.
#[derive(Debug, Clone, Copy, PartialEq, Eq)]
pub struct ShaderUniformBlockDesc {
    /// Name of the uniform in the shader source
    pub name: &'static str,
    pub uniform_type: UniformType,
    /// Bytes of the block
    pub size: u64,
}

/// Description of a shader program for the device to compile.
#[derive(Debug, PartialEq, Eq)]
pub struct ShaderDesc {
    /// Source of the vertex stage, with a zero byte at its end
    pub vs: Vec<u8>,
    /// Source of the fragment stage, with a zero byte at its end
    pub fs: Vec<u8>,
    /// Uniform blocks of the vertex stage, by slot
    pub vs_uniform_blocks: Vec<ShaderUniformBlockDesc>,
    /// Images of the fragment stage, by slot
    pub fs_images: Vec<ShaderImageDesc>,
}

/// Description of a pipeline for the device to create.
#[derive(Debug, Clone, Copy, PartialEq, Eq)]
pub struct PipelineDesc {
    pub shader: Program,
    pub index_type: IndexType,
    pub layout: LayoutDesc,
    pub cull_mode: CullMode,
}

/// All that is needed to make a shader: first the program is compiled, then
/// the pipeline is created around it.
#[derive(Debug, PartialEq, Eq)]
pub struct ShaderSetup {
    pub shader: ShaderDesc,
    /// The pipeline; which program it uses is filled in by `pipeline_desc`
    pub pipeline: PipelineDesc,
}

impl ShaderSetup {
    /// The pipeline around the program `shd` that the device compiled of
    /// `self.shader`. A program that the device rejected gives no pipeline.
    pub fn pipeline_desc(&self, shd: Program, state: ResourceState) -> (r: Result<
        PipelineDesc,
        ShaderError,
    >)
        ensures
            state == ResourceState::Valid ==> r == Ok::<PipelineDesc, ShaderError>(
                PipelineDesc { shader: shd, ..self.pipeline },
            ),
            state != ResourceState::Valid ==> r == Err::<PipelineDesc, ShaderError>(
                ShaderError::ProgramRejected,
            ),
    {
        if state != ResourceState::Valid {
            return Err(ShaderError::ProgramRejected);
        }
        let mut desc = self.pipeline;
        desc.shader = shd;
        Ok(desc)
    }
}

/// `src` with a zero byte at its end, as the device reads sources.
pub open spec fn terminated(src: Seq<u8>) -> Seq<u8> {
    src.push(0u8)
}

/// Copies `src` and ends it with a zero byte.
fn terminate(src: &[u8]) -> (out: Vec<u8>)
    ensures
        out@ == terminated(src@),
{
    let mut out: Vec<u8> = Vec::new();
    let mut i: usize = 0;
    while i < src.len()
        invariant
            i <= src@.len(),
            out@ == src@.take(i as int),
        decreases src@.len() - i,
    {
        out.push(src[i]);
        assert(out@ =~= src@.take(i + 1));
        i = i + 1;
    }
    assert(src@.take(i as int) =~= src@);
    out.push(0u8);
    out
}

/// A sampler named `name` for images of type `image_type`.
pub fn img_type(name: &'static str, image_type: ImageType) -> (desc: ShaderImageDesc)
    ensures
        desc.name == name,
        desc.image_type == image_type,
{
    ShaderImageDesc { name, image_type }
}

/// Single-value uniform block
pub fn ub(name: &'static str, uniform_type: UniformType, size: u64) -> (block:
    ShaderUniformBlockDesc)
    ensures
        block.name == name,
        block.uniform_type == uniform_type,
        block.size == size,
{
    ShaderUniformBlockDesc { name, uniform_type, size }
}

/// `setup` is what `gen` makes of its arguments.
pub open spec fn is_gen(
    setup: ShaderSetup,
    vs: Seq<u8>,
    fs: Seq<u8>,
    vs_uniform_blocks: Seq<ShaderUniformBlockDesc>,
    fs_images: Seq<ShaderImageDesc>,
    pip_desc: PipelineDesc,
) -> bool {
    &&& setup.shader.vs@ == terminated(vs)
    &&& setup.shader.fs@ == terminated(fs)
    &&& setup.shader.vs_uniform_blocks@ == vs_uniform_blocks
    &&& setup.shader.fs_images@ == fs_images
    &&& setup.pipeline == pip_desc
}

/// Puts the description of a shader together: the two sources, each ended
/// with a zero byte, what they declare, and the pipeline.
pub fn gen(
    vs: &[u8],
    fs: &[u8],
    vs_uniform_blocks: Vec<ShaderUniformBlockDesc>,
    fs_images: Vec<ShaderImageDesc>,
    pip_desc: PipelineDesc,
) -> (setup: ShaderSetup)
    ensures
        is_gen(setup, vs@, fs@, vs_uniform_blocks@, fs_images@, pip_desc),
{
    let shader = ShaderDesc { vs: terminate(vs), fs: terminate(fs), vs_uniform_blocks, fs_images };
    ShaderSetup { shader, pipeline: pip_desc }
}

/// A pipeline of 16-bit indices that culls nothing, for vertices of `layout`.
/// Its program is not set yet.
pub open spec fn spec_pipeline(layout: LayoutDesc) -> PipelineDesc {
    PipelineDesc {
        shader: Program { id: INVALID_ID },
        index_type: IndexType::UInt16,
        layout,
        cull_mode: CullMode::Off,
    }
}

/// The shader of the triangle: no uniforms, no images.
pub fn triangle(vs: &[u8], fs: &[u8]) -> (setup: ShaderSetup)
    ensures
        is_gen(setup, vs@, fs@, Seq::empty(), Seq::empty(), setup.pipeline),
        setup.pipeline == spec_pipeline(setup.pipeline.layout),
        setup.pipeline.layout.starts_with(seq![VertexFormat::Float3, VertexFormat::Float4]),
{
    gen(
        vs,
        fs,
        Vec::new(),
        Vec::new(),
        PipelineDesc {
            shader: Program { id: INVALID_ID },
            index_type: IndexType::UInt16,
            layout: TriangleVertex::layout_desc(),
            cull_mode: CullMode::Off,
        },
    )
}

/// The shader of the textured quad: one 2D image, named `tex`.
pub fn texture(vs: &[u8], fs: &[u8]) -> (setup: ShaderSetup)
    ensures
        is_gen(
            setup,
            vs@,
            fs@,
            Seq::empty(),
            seq![ShaderImageDesc { name: "tex", image_type: ImageType::Dim2 }],
            setup.pipeline,
        ),
        setup.pipeline == spec_pipeline(setup.pipeline.layout),
        setup.pipeline.layout.starts_with(
            seq![VertexFormat::Float3, VertexFormat::UByte4N, VertexFormat::Float2],
        ),
{
    let mut images: Vec<ShaderImageDesc> = Vec::new();
    images.push(img_type("tex", ImageType::Dim2));
    assert(images@ =~= seq![ShaderImageDesc { name: "tex", image_type: ImageType::Dim2 }]);
    gen(
        vs,
        fs,
        Vec::new(),
        images,
        PipelineDesc {
            shader: Program { id: INVALID_ID },
            index_type: IndexType::UInt16,
            layout: TextureVertex::layout_desc(),
            cull_mode: CullMode::Off,
        },
    )
}

/// Bytes of a matrix of four by four reals.
pub const MAT4_SIZE: u64 = 64;

/// The shader of the cube: one 2D image, named `tex`, and one matrix in the
/// vertex stage, named `transform`.
pub fn cube(vs: &[u8], fs: &[u8]) -> (setup: ShaderSetup)
    ensures
        is_gen(
            setup,
            vs@,
            fs@,
            seq![
                ShaderUniformBlockDesc {
                    name: "transform",
                    uniform_type: UniformType::Mat4,
                    size: MAT4_SIZE,
                },
            ],
            seq![ShaderImageDesc { name: "tex", image_type: ImageType::Dim2 }],
            setup.pipeline,
        ),
        setup.pipeline == spec_pipeline(setup.pipeline.layout),
        setup.pipeline.layout.starts_with(
            seq![VertexFormat::Float3, VertexFormat::UByte4N, VertexFormat::Float2],
        ),
{
    let mut blocks: Vec<ShaderUniformBlockDesc> = Vec::new();
    blocks.push(ub("transform", UniformType::Mat4, MAT4_SIZE));
    assert(blocks@ =~= seq![
        ShaderUniformBlockDesc {
            name: "transform",
            uniform_type: UniformType::Mat4,
            size: MAT4_SIZE,
        },
    ]);
    let mut images: Vec<ShaderImageDesc> = Vec::new();
    images.push(img_type("tex", ImageType::Dim2));
    assert(images@ =~= seq![ShaderImageDesc { name: "tex", image_type: ImageType::Dim2 }]);
    gen(
        vs,
        fs,
        blocks,
        images,
        PipelineDesc {
            shader: Program { id: INVALID_ID },
            index_type: IndexType::UInt16,
            layout: CubeVertex::layout_desc(),
            cull_mode: CullMode::Off,
        },
    )
}

} // verus!
