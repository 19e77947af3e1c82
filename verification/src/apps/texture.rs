//! Draws a textured quad

use vstd::prelude::*;

use crate::apps::{background, spec_background, spec_frame};
use crate::gfx::command::{Command, PassAction};
use crate::gfx::mesh::{MeshData, StaticMesh};
use crate::gfx::shader::Shader;
use crate::gfx::single::{HALF, NEG_HALF, ONE, ZERO};
use crate::gfx::tex::Texture2dDrop;
use crate::shaders::TextureVertex;

verus! {

/// Draws a textured quad
#[derive(Debug)]
pub struct TextureApp {
    /// Clears the frame color buffer on starting screen rendering pass
    pa: PassAction,
    shd: Shader,
    tex: Texture2dDrop,
    mesh: StaticMesh<TextureVertex>,
}

/// `v` is corner `i` of the quad: white, half a unit from the middle of the
/// screen, counter-clockwise from the bottom left, with the texture stretched
/// once over the quad.
pub open spec fn is_quad_vertex(v: TextureVertex, i: int) -> bool {
    &&& v.pos@ == seq![
        if i == 1 || i == 2 { HALF } else { NEG_HALF },
        if i == 2 || i == 3 { HALF } else { NEG_HALF },
        ZERO,
    ]
    &&& v.color@ == seq![255u8, 255u8, 255u8, 255u8]
    &&& v.uv@ == seq![
        if i == 1 || i == 2 { ONE } else { ZERO },
        if i == 2 || i == 3 { ONE } else { ZERO },
    ]
}

impl TextureApp {
    pub closed spec fn pa(&self) -> PassAction {
        self.pa
    }

    pub closed spec fn shd(&self) -> Shader {
        self.shd
    }

    pub closed spec fn tex(&self) -> Texture2dDrop {
        self.tex
    }

    pub closed spec fn mesh(&self) -> StaticMesh<TextureVertex> {
        self.mesh
    }

    /// The quad: four corners, drawn as the triangles (0, 1, 2) and (0, 2, 3).
    pub fn mesh_data() -> (data: MeshData<TextureVertex>)
        ensures
            data.verts@.len() == 4,
            forall|i: int| 0 <= i < 4 ==> is_quad_vertex(#[trigger] data.verts@[i], i),
            data.indices@ == seq![0u16, 1u16, 2u16, 0u16, 2u16, 3u16],
            data.wf(),
    {
        let w: [u8; 4] = [255, 255, 255, 255];
        let verts: Vec<TextureVertex> = vec![
            // pos, color, uv
            TextureVertex::new([NEG_HALF, NEG_HALF, ZERO], w, [ZERO, ZERO]),
            TextureVertex::new([HALF, NEG_HALF, ZERO], w, [ONE, ZERO]),
            TextureVertex::new([HALF, HALF, ZERO], w, [ONE, ONE]),
            TextureVertex::new([NEG_HALF, HALF, ZERO], w, [ZERO, ONE]),
        ];
        let indices: Vec<u16> = vec![0, 1, 2, 0, 2, 3];
        assert(indices@ =~= seq![0u16, 1u16, 2u16, 0u16, 2u16, 3u16]);
        assert forall|i: int| 0 <= i < 4 implies is_quad_vertex(#[trigger] verts@[i], i) by {
            let v = verts@[i];
            assert(v.color@ =~= seq![255u8, 255u8, 255u8, 255u8]);
            assert(v.pos@ =~= seq![
                if i == 1 || i == 2 { HALF } else { NEG_HALF },
                if i == 2 || i == 3 { HALF } else { NEG_HALF },
                ZERO,
            ]);
            assert(v.uv@ =~= seq![
                if i == 1 || i == 2 { ONE } else { ZERO },
                if i == 2 || i == 3 { ONE } else { ZERO },
            ]);
        }
        MeshData { verts, indices }
    }

    /// The scene, of the resources that the driver has created. The texture
    /// is bound to the first image slot of the mesh.
    pub fn new(shd: Shader, tex: Texture2dDrop, mesh: StaticMesh<TextureVertex>) -> (app: Self)
        ensures
            app.pa().action == spec_background().action,
            app.pa().color@ == spec_background().color@,
            app.shd() == shd,
            app.tex() == tex,
            app.mesh().bindings().fs_images@ == mesh.bindings().fs_images@.update(0, tex.img()),
            app.mesh().bindings().vertex_buffer == mesh.bindings().vertex_buffer,
            app.mesh().bindings().index_buffer == mesh.bindings().index_buffer,
            app.mesh().n_indices() == mesh.n_indices(),
    {
        let mut quad_mesh = mesh;
        quad_mesh.bind_img(tex.img(), 0);
        Self { pa: background(), shd, tex, mesh: quad_mesh }
    }

    /// The commands of one frame, for a screen of `width` by `height` pixels.
    pub fn frame(&mut self, width: u32, height: u32) -> (cmds: Vec<Command>)
        ensures
            *final(self) == *old(self),
            cmds@ == spec_frame(
                old(self).pa(),
                old(self).shd(),
                old(self).mesh(),
                width,
                height,
            ),
    {
        self.update();
        let mut cmds = self.render(width, height);
        cmds.push(Command::Commit);
        assert(cmds@ =~= spec_frame(self.pa(), self.shd(), self.mesh(), width, height));
        cmds
    }

    fn update(&mut self)
        ensures
            *final(self) == *old(self),
    {
    }

    fn render(&self, width: u32, height: u32) -> (cmds: Vec<Command>)
        ensures
            cmds@ == spec_frame(self.pa(), self.shd(), self.mesh(), width, height).drop_last(),
    {
        let mut cmds: Vec<Command> = Vec::new();
        cmds.push(Command::BeginDefaultPass { action: self.pa, width, height });
        cmds.push(self.shd.apply_pip());
        let draw = self.mesh.draw_all();
        cmds.push(draw[0]);
        cmds.push(draw[1]);
        cmds.push(Command::EndPass);
        assert(cmds@ =~= spec_frame(
            self.pa(),
            self.shd(),
            self.mesh(),
            width,
            height,
        ).drop_last());
        cmds
    }

    /// Gives the scene up: the commands that destroy what it owns, in the
    /// order shader, texture, mesh, each resource once.
    pub fn release(self) -> (cmds: Vec<Command>)
        ensures
            cmds@ == seq![
                Command::DestroyProgram { shd: self.shd().shd() },
                Command::DestroyPipeline { pip: self.shd().pip() },
                Command::DestroyImage { img: self.tex().img() },
                Command::DestroyBuffer { buf: self.mesh().bindings().vertex_buffer },
                Command::DestroyBuffer { buf: self.mesh().bindings().index_buffer },
            ],
    {
        let shd = self.shd.release();
        let tex = self.tex.release();
        let mesh = self.mesh.release();
        let mut cmds: Vec<Command> = Vec::new();
        cmds.push(shd[0]);
        cmds.push(shd[1]);
        cmds.push(tex);
        cmds.push(mesh[0]);
        cmds.push(mesh[1]);
        assert(cmds@ =~= seq![
            Command::DestroyProgram { shd: self.shd().shd() },
            Command::DestroyPipeline { pip: self.shd().pip() },
            Command::DestroyImage { img: self.tex().img() },
            Command::DestroyBuffer { buf: self.mesh().bindings().vertex_buffer },
            Command::DestroyBuffer { buf: self.mesh().bindings().index_buffer },
        ]);
        cmds
    }
}

} // verus!
