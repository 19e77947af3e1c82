//! Handles of device resources.
//!
//! A handle is the number under which the device knows a resource. The library
//! never makes one up: it receives handles from the driver and hands them back
//! inside commands.

use vstd::prelude::*;

verus! {

/// The id that no live resource has.
pub const INVALID_ID: u32 = 0;

/// Handle of a vertex or index buffer.
#[derive(Clone, Copy, Debug, PartialEq, Eq, Hash, Structural)]
pub struct Buffer {
    pub id: u32,
}

/// Handle of an image.
#[derive(Clone, Copy, Debug, PartialEq, Eq, Hash, Structural)]
pub struct Image {
    pub id: u32,
}

/// Handle of a compiled shader program.
#[derive(Clone, Copy, Debug, PartialEq, Eq, Hash, Structural)]
pub struct Program {
    pub id: u32,
}

/// Handle of a pipeline.
#[derive(Clone, Copy, Debug, PartialEq, Eq, Hash, Structural)]
pub struct Pipeline {
    pub id: u32,
}

/// Handle of a rendering pass.
#[derive(Clone, Copy, Debug, PartialEq, Eq, Hash, Structural)]
pub struct Pass {
    pub id: u32,
}

/// What the device reports of a resource after trying to create it.
#[derive(Clone, Copy, Debug, PartialEq, Eq, Hash, Structural)]
pub enum ResourceState {
    Initial,
    Alloc,
    Valid,
    Failed,
    Invalid,
}

} // verus!
