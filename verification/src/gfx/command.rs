//! What the library asks of the device.
//!
//! The library performs no drawing. Every frame, and every release of a
//! resource, is a list of commands that the driver carries out in order.

use vstd::prelude::*;

use crate::gfx::handle::{Buffer, Image, Pass, Pipeline, Program, INVALID_ID};
use crate::gfx::kinds::ShaderStage;

verus! {

/// Number of image slots of a shader stage.
pub const MAX_SHADERSTAGE_IMAGES: usize = 12;

/// What happens to an attachment when a pass begins.
#[derive(Clone, Copy, Debug, PartialEq, Eq, Hash, Structural)]
pub enum PassActionKind {
    /// Left for the device to choose.
    Unset,
    Clear,
    Load,
    DontCare,
}

/// What happens to the color attachment when a pass begins.
#[derive(Clone, Copy, Debug, PartialEq, Eq)]
pub struct PassAction {
    pub action: PassActionKind,
    /// R, G, B, A, as single-precision bit patterns
    pub color: [u32; 4],
}

impl PassAction {
    /// Fill the color attachment with `color`.
    pub fn clear(color: [u32; 4]) -> (pa: Self)
        ensures
            pa.action == PassActionKind::Clear,
            pa.color == color,
    {
        PassAction { action: PassActionKind::Clear, color }
    }
}

/// The buffers and images that a draw call reads.
#[derive(Clone, Copy, Debug, PartialEq, Eq)]
pub struct Bindings {
    pub vertex_buffer: Buffer,
    pub index_buffer: Buffer,
    /// Images of the fragment stage, by slot
    pub fs_images: [Image; 12],
}

impl Bindings {
    /// Bindings of two buffers, with no image in any slot.
    pub fn new(vertex_buffer: Buffer, index_buffer: Buffer) -> (bind: Self)
        ensures
            bind.vertex_buffer == vertex_buffer,
            bind.index_buffer == index_buffer,
            forall|s: int| 0 <= s < 12 ==> (#[trigger] bind.fs_images[s]).id == INVALID_ID,
    {
        let none = Image { id: INVALID_ID };
        Bindings {
            vertex_buffer,
            index_buffer,
            fs_images: [none, none, none, none, none, none, none, none, none, none, none, none],
        }
    }
}

/// A camera that looks from `eye` at `target`, in right-handed coordinates.
///
/// All of its numbers are single-precision bit patterns.
#[derive(Clone, Copy, Debug, PartialEq, Eq)]
pub struct Camera {
    pub eye: [u32; 3],
    pub target: [u32; 3],
    pub up: [u32; 3],
    /// Vertical field of view, in radians
    pub fov_y: u32,
    pub z_near: u32,
    pub z_far: u32,
}

/// Data for a uniform block, for the driver to lay out.
#[derive(Clone, Copy, Debug, PartialEq, Eq)]
pub enum Uniform {
    /// The product of the perspective projection and the view matrix of
    /// `camera`, column-major, for a frame of `width` by `height` pixels.
    ViewProjection { camera: Camera, width: u32, height: u32 },
}

/// One request to the device.
#[derive(Clone, Copy, Debug, PartialEq, Eq)]
pub enum Command {
    /// Begin a pass that renders to the screen.
    BeginDefaultPass { action: PassAction, width: u32, height: u32 },
    ApplyPipeline { pip: Pipeline },
    ApplyBindings { bind: Bindings },
    ApplyUniforms { stage: ShaderStage, ub_index: u32, uniform: Uniform },
    /// Draw `n_elems` indexed vertices, from index `base_elem` on.
    Draw { base_elem: usize, n_elems: usize, n_instances: u32 },
    EndPass,
    /// Present the frame.
    Commit,
    DestroyBuffer { buf: Buffer },
    DestroyImage { img: Image },
    DestroyPass { pass: Pass },
    DestroyPipeline { pip: Pipeline },
    DestroyProgram { shd: Program },
}

} // verus!
