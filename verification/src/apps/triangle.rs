//! Draws a triangle

use vstd::prelude::*;

use crate::apps::{background, spec_background, spec_frame};
use crate::gfx::command::{Command, PassAction};
use crate::gfx::mesh::{MeshData, StaticMesh};
use crate::gfx::shader::Shader;
use crate::gfx::single::{HALF, NEG_HALF, ONE, ZERO};
use crate::shaders::TriangleVertex;

verus! {

/// Draws a triangle
#[derive(Debug)]
pub struct TriangleApp {
    /// Clears the frame color buffer on starting screen rendering pass
    pa: PassAction,
    /// Triangle shader
    shd: Shader,
    /// Buffer for the triangle shader
    mesh: StaticMesh<TriangleVertex>,
}

impl TriangleApp {
    pub closed spec fn pa(&self) -> PassAction {
        self.pa
    }

    pub closed spec fn shd(&self) -> Shader {
        self.shd
    }

    pub closed spec fn mesh(&self) -> StaticMesh<TriangleVertex> {
        self.mesh
    }

    /// The triangle: a red top, a green bottom right and a blue bottom left
    /// corner, half a unit from the middle of the screen.
    pub fn mesh_data() -> (data: MeshData<TriangleVertex>)
        ensures
            data.verts@.len() == 3,
            data.verts@[0].pos@ == seq![ZERO, HALF, HALF],
            data.verts@[0].color@ == seq![ONE, ZERO, ZERO, ONE],
            data.verts@[1].pos@ == seq![HALF, NEG_HALF, HALF],
            data.verts@[1].color@ == seq![ZERO, ONE, ZERO, ONE],
            data.verts@[2].pos@ == seq![NEG_HALF, NEG_HALF, HALF],
            data.verts@[2].color@ == seq![ZERO, ZERO, ONE, ONE],
            data.indices@ == seq![0u16, 1u16, 2u16],
            data.wf(),
    {
        // set up a triangle
        let verts: Vec<TriangleVertex> = vec![
            // (vertex, color)
            TriangleVertex::new([ZERO, HALF, HALF], [ONE, ZERO, ZERO, ONE]), // top
            TriangleVertex::new([HALF, NEG_HALF, HALF], [ZERO, ONE, ZERO, ONE]), // bottom right
            TriangleVertex::new([NEG_HALF, NEG_HALF, HALF], [ZERO, ZERO, ONE, ONE]), // bottom left
        ];
        let indices: Vec<u16> = vec![0, 1, 2];
        assert(verts@[0].pos@ =~= seq![ZERO, HALF, HALF]);
        assert(verts@[0].color@ =~= seq![ONE, ZERO, ZERO, ONE]);
        assert(verts@[1].pos@ =~= seq![HALF, NEG_HALF, HALF]);
        assert(verts@[1].color@ =~= seq![ZERO, ONE, ZERO, ONE]);
        assert(verts@[2].pos@ =~= seq![NEG_HALF, NEG_HALF, HALF]);
        assert(verts@[2].color@ =~= seq![ZERO, ZERO, ONE, ONE]);
        assert(indices@ =~= seq![0u16, 1u16, 2u16]);
        MeshData { verts, indices }
    }

    /// The scene, of the shader and the mesh that the driver has created.
    pub fn new(shd: Shader, mesh: StaticMesh<TriangleVertex>) -> (app: Self)
        ensures
            app.pa().action == spec_background().action,
            app.pa().color@ == spec_background().color@,
            app.shd() == shd,
            app.mesh() == mesh,
    {
        Self { pa: background(), shd, mesh }
    }

    /// The commands of one frame, for a screen of `width` by `height` pixels.
    pub fn frame(&mut self, width: u32, height: u32) -> (cmds: Vec<Command>)
        ensures
            *final(self) == *old(self),
            cmds@ == spec_frame(
                old(self).pa(),
                old(self).shd(),
                old(self).mesh(),
                width,
                height,
            ),
    {
        self.update();
        let mut cmds = self.render(width, height);
        cmds.push(Command::Commit);
        assert(cmds@ =~= spec_frame(self.pa(), self.shd(), self.mesh(), width, height));
        cmds
    }

    fn update(&mut self)
        ensures
            *final(self) == *old(self),
    {
        //
    }

    fn render(&self, width: u32, height: u32) -> (cmds: Vec<Command>)
        ensures
            cmds@ == spec_frame(self.pa(), self.shd(), self.mesh(), width, height).drop_last(),
    {
        let mut cmds: Vec<Command> = Vec::new();
        cmds.push(Command::BeginDefaultPass { action: self.pa, width, height });
        cmds.push(self.shd.apply_pip());
        let draw = self.mesh.draw_all();
        cmds.push(draw[0]);
        cmds.push(draw[1]);
        cmds.push(Command::EndPass);
        assert(cmds@ =~= spec_frame(
            self.pa(),
            self.shd(),
            self.mesh(),
            width,
            height,
        ).drop_last());
        cmds
    }

    /// Gives the scene up: the commands that destroy what it owns, the
    /// shader first, each resource once.
    pub fn release(self) -> (cmds: Vec<Command>)
        ensures
            cmds@ == seq![
                Command::DestroyProgram { shd: self.shd().shd() },
                Command::DestroyPipeline { pip: self.shd().pip() },
                Command::DestroyBuffer { buf: self.mesh().bindings().vertex_buffer },
                Command::DestroyBuffer { buf: self.mesh().bindings().index_buffer },
            ],
    {
        let shd = self.shd.release();
        let mesh = self.mesh.release();
        let mut cmds: Vec<Command> = Vec::new();
        cmds.push(shd[0]);
        cmds.push(shd[1]);
        cmds.push(mesh[0]);
        cmds.push(mesh[1]);
        assert(cmds@ =~= seq![
            Command::DestroyProgram { shd: self.shd().shd() },
            Command::DestroyPipeline { pip: self.shd().pip() },
            Command::DestroyBuffer { buf: self.mesh().bindings().vertex_buffer },
            Command::DestroyBuffer { buf: self.mesh().bindings().index_buffer },
        ]);
        cmds
    }
}

} // verus!
