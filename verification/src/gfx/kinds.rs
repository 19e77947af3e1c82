//! The choices that resource descriptions are made of.

use vstd::prelude::*;

verus! {

/// How often the content of a buffer or image changes.
#[derive(Clone, Copy, Debug, PartialEq, Eq, Hash, Structural)]
pub enum ResourceUsage {
    /// Left for the device to choose.
    Unset,
    /// Never updated after creation.
    Immutable,
    /// Updated now and then.
    Dynamic,
    /// Updated every frame.
    Stream,
}

/// Shape of an image.
#[derive(Clone, Copy, Debug, PartialEq, Eq, Hash, Structural)]
pub enum ImageType {
    Dim2,
    Dim3,
    Array,
    Cube,
}

/// How a texture is sampled between texels.
#[derive(Clone, Copy, Debug, PartialEq, Eq, Hash, Structural)]
pub enum Filter {
    Linear,
    LinearMipmap,
    LinearMipmapNearest,
    Nearest,
    NearestMipmapLinear,
    NearestMipmapNearest,
}

/// How a texture is sampled outside of its unit square.
#[derive(Clone, Copy, Debug, PartialEq, Eq, Hash, Structural)]
pub enum Wrap {
    ClampToBorder,
    ClampToEdge,
    MirroredRepeat,
    Repeat,
}

/// Kind of a buffer.
#[derive(Clone, Copy, Debug, PartialEq, Eq, Hash, Structural)]
pub enum BufferType {
    Index,
    Vertex,
}

/// Width of the indices of a mesh.
#[derive(Clone, Copy, Debug, PartialEq, Eq, Hash, Structural)]
pub enum IndexType {
    /// The mesh is drawn without indices.
    Unindexed,
    UInt16,
    UInt32,
}

/// Which faces a pipeline discards.
#[derive(Clone, Copy, Debug, PartialEq, Eq, Hash, Structural)]
pub enum CullMode {
    Back,
    Front,
    /// Both sides of every face are drawn.
    Off,
}

/// Stage of a shader program.
#[derive(Clone, Copy, Debug, PartialEq, Eq, Hash, Structural)]
pub enum ShaderStage {
    /// Fragment shader
    Fs,
    /// Vertex shader
    Vs,
}

/// Type of a uniform.
#[derive(Clone, Copy, Debug, PartialEq, Eq, Hash, Structural)]
pub enum UniformType {
    Invalid,
    Float,
    Float2,
    Float3,
    Float4,
    Mat4,
}

/// Format of one vertex attribute.
#[derive(Clone, Copy, Debug, PartialEq, Eq, Hash, Structural)]
pub enum VertexFormat {
    /// The attribute slot is not used.
    Invalid,
    Float,
    Float2,
    Float3,
    Float4,
    Byte4,
    Byte4N,
    UByte4,
    UByte4N,
    Short2,
    Short2N,
    UShort2N,
    Short4,
    Short4N,
    UShort4N,
    Uint10N2,
}

impl VertexFormat {
    /// Bytes that an attribute of this format takes in a vertex.
    pub open spec fn spec_size(self) -> nat {
        match self {
            VertexFormat::Invalid => 0,
            VertexFormat::Float => 4,
            VertexFormat::Float2 => 8,
            VertexFormat::Float3 => 12,
            VertexFormat::Float4 => 16,
            VertexFormat::Byte4 => 4,
            VertexFormat::Byte4N => 4,
            VertexFormat::UByte4 => 4,
            VertexFormat::UByte4N => 4,
            VertexFormat::Short2 => 4,
            VertexFormat::Short2N => 4,
            VertexFormat::UShort2N => 4,
            VertexFormat::Short4 => 8,
            VertexFormat::Short4N => 8,
            VertexFormat::UShort4N => 8,
            VertexFormat::Uint10N2 => 4,
        }
    }

    /// Bytes that an attribute of this format takes in a vertex.
    pub fn size(self) -> (n: usize)
        ensures
            n == self.spec_size(),
    {
        match self {
            VertexFormat::Invalid => 0,
            VertexFormat::Float => 4,
            VertexFormat::Float2 => 8,
            VertexFormat::Float3 => 12,
            VertexFormat::Float4 => 16,
            VertexFormat::Byte4 => 4,
            VertexFormat::Byte4N => 4,
            VertexFormat::UByte4 => 4,
            VertexFormat::UByte4N => 4,
            VertexFormat::Short2 => 4,
            VertexFormat::Short2N => 4,
            VertexFormat::UShort2N => 4,
            VertexFormat::Short4 => 8,
            VertexFormat::Short4N => 8,
            VertexFormat::UShort4N => 8,
            VertexFormat::Uint10N2 => 4,
        }
    }
}

} // verus!
