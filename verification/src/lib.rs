//! Scene descriptions for small rendering examples: a triangle, a textured
//! quad and a textured cube.
//!
//! The library is the pure half of a renderer. It builds vertex and index data,
//! texture pixels and resource descriptions, tracks which GPU handles each
//! wrapper owns, and decides the commands of every frame. A driver outside the
//! library performs the commands on a graphics device and hands the handles it
//! receives back in.

pub mod apps;
pub mod gfx;
pub mod shaders;

pub use apps::TextureApp;
