//! Descriptions of, and owning wrappers for, the resources of a graphics device.

pub mod bytes;
pub mod command;
pub mod decode;
pub mod handle;
pub mod kinds;
pub mod mesh;
pub mod pixels;
pub mod shader;
pub mod single;
pub mod tex;

pub use mesh::{MeshData, StaticMesh};
pub use shader::Shader;
pub use tex::{RenderTexture2d, Texture2dDrop, TextureBuilder};
