//! The example scenes.
//!
//! A scene owns its shader, its mesh and, where it has one, its texture. It
//! is made of resources that the driver has created, tells the driver what to
//! do on every frame, and at its end which resources to destroy.

use vstd::prelude::*;

use crate::gfx::command::{Command, PassAction, PassActionKind};
use crate::gfx::mesh::StaticMesh;
use crate::gfx::shader::Shader;
use crate::gfx::single::ONE;

pub mod cube;
pub mod texture;
pub mod triangle;

pub use self::{cube::CubeApp, texture::TextureApp, triangle::TriangleApp};

verus! {

/// Red of the background, 100 / 255
pub const BACKGROUND_RED: u32 = 0x3EC8_C8C9;

/// Green of the background, 149 / 255
pub const BACKGROUND_GREEN: u32 = 0x3F15_9596;

/// Blue of the background, 237 / 255
pub const BACKGROUND_BLUE: u32 = 0x3F6D_EDEE;

/// What every scene does to the screen before it draws: clear it to an opaque
/// cornflower blue.
pub open spec fn spec_background() -> PassAction {
    PassAction {
        action: PassActionKind::Clear,
        color: [BACKGROUND_RED, BACKGROUND_GREEN, BACKGROUND_BLUE, ONE],
    }
}

/// What every scene does to the screen before it draws.
pub fn background() -> (pa: PassAction)
    ensures
        pa.action == spec_background().action,
        pa.color@ == seq![
            BACKGROUND_RED,
            BACKGROUND_GREEN,
            BACKGROUND_BLUE,
            ONE,
        ],
{
    let pa = PassAction::clear(
        [BACKGROUND_RED, BACKGROUND_GREEN, BACKGROUND_BLUE, ONE],
    );
    assert(pa.color@ =~= seq![
        BACKGROUND_RED,
        BACKGROUND_GREEN,
        BACKGROUND_BLUE,
        ONE,
    ]);
    pa
}

/// The commands of one frame of a scene without uniforms: a pass to the
/// screen in which the mesh is drawn once, whole, and then the frame is shown.
pub open spec fn spec_frame<V>(
    pa: PassAction,
    shd: Shader,
    mesh: StaticMesh<V>,
    width: u32,
    height: u32,
) -> Seq<Command> {
    seq![
        Command::BeginDefaultPass { action: pa, width, height },
        Command::ApplyPipeline { pip: shd.pip() },
        Command::ApplyBindings { bind: mesh.bindings() },
        Command::Draw { base_elem: 0, n_elems: mesh.n_indices(), n_instances: 1 },
        Command::EndPass,
        Command::Commit,
    ]
}

} // verus!
