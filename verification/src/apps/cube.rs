//! Textured cube

use vstd::prelude::*;

use crate::apps::{background, spec_background};
use crate::gfx::command::{Camera, Command, PassAction, Uniform};
use crate::gfx::kinds::ShaderStage;
use crate::gfx::mesh::{MeshData, StaticMesh};
use crate::gfx::shader::Shader;
use crate::gfx::single::{unit, NEG_ONE, ONE, ZERO};
use crate::gfx::tex::Texture2dDrop;
use crate::shaders::{CubeVertex, TextureVertex};

verus! {

/// Sign of corner `c` of a face along the face's first free axis.
///
/// The corners of a face run counter-clockwise from the one where both free
/// coordinates are negative.
pub open spec fn corner_u(c: int) -> int {
    if c == 1 || c == 2 {
        1
    } else {
        -1
    }
}

/// Sign of corner `c` of a face along the face's second free axis.
pub open spec fn corner_v(c: int) -> int {
    if c == 2 || c == 3 {
        1
    } else {
        -1
    }
}

/// Coordinate (-1 or 1) of cube vertex `i` along `axis` (0 for x, 1 for y, 2 for z).
///
/// Vertex `i` is corner `i % 4` of face `i / 4`. Faces come in opposite pairs:
/// pair `p` lies across axis `p + 2` (taken modulo 3), the negative side first,
/// and its free axes are `p` and `p + 1`.
pub open spec fn cube_coord(i: int, axis: int) -> int {
    let face = i / 4;
    let corner = i % 4;
    let pair = face / 2;
    if axis == pair {
        corner_u(corner)
    } else if axis == (pair + 1) % 3 {
        corner_v(corner)
    } else if face % 2 == 0 {
        -1
    } else {
        1
    }
}

/// `v` is vertex `i` of the cube: white, on the corner that `cube_coord` gives,
/// with the texture stretched once over its face.
pub open spec fn is_cube_vertex(v: CubeVertex, i: int) -> bool {
    &&& v.pos[0] == unit(cube_coord(i, 0))
    &&& v.pos[1] == unit(cube_coord(i, 1))
    &&& v.pos[2] == unit(cube_coord(i, 2))
    &&& v.color[0] == 255
    &&& v.color[1] == 255
    &&& v.color[2] == 255
    &&& v.color[3] == 255
    &&& v.uv[0] == unit((corner_u(i % 4) + 1) / 2)
    &&& v.uv[1] == unit((corner_v(i % 4) + 1) / 2)
}

/// Corner of a quad named at place `t` of its two triangles, (0, 1, 2) and (0, 2, 3).
pub open spec fn quad_corner(t: int) -> int {
    if t == 0 || t == 3 {
        0
    } else if t == 1 {
        1
    } else if t == 2 || t == 4 {
        2
    } else {
        3
    }
}

/// Index `j` of the cube mesh.
///
/// Face `j / 6` takes six indices into its own four vertices. The face on the
/// negative side of an axis lists each triangle as `quad_corner` does, the
/// opposite face lists each triangle backwards, so that both wind the same way
/// when seen from outside.
pub open spec fn cube_index(j: int) -> int {
    let face = j / 6;
    let t = j % 6;
    let place = if face % 2 == 0 {
        t
    } else {
        3 * (t / 3) + (2 - t % 3)
    };
    4 * face + quad_corner(place)
}

/// The vertices and indices of a cube with corners at (±1, ±1, ±1): six faces
/// of four vertices each, drawn as two triangles per face.
pub fn gen_cube_mesh() -> (mesh: MeshData<CubeVertex>)
    ensures
        mesh.verts@.len() == 24,
        forall|i: int| 0 <= i < 24 ==> is_cube_vertex(#[trigger] mesh.verts@[i], i),
        mesh.indices@.len() == 36,
        forall|j: int| 0 <= j < 36 ==> (#[trigger] mesh.indices@[j]) == cube_index(j),
        mesh.wf(),
{
    let n: u32 = NEG_ONE;
    let p: u32 = ONE;
    let o: u32 = ZERO;
    let l: u32 = ONE;
    let w: [u8; 4] = [255, 255, 255, 255];
    let verts: Vec<CubeVertex> = vec![
        // six rectangles
        TextureVertex::new([n, n, n], w, [o, o]),
        TextureVertex::new([p, n, n], w, [l, o]),
        TextureVertex::new([p, p, n], w, [l, l]),
        TextureVertex::new([n, p, n], w, [o, l]),
        //
        TextureVertex::new([n, n, p], w, [o, o]),
        TextureVertex::new([p, n, p], w, [l, o]),
        TextureVertex::new([p, p, p], w, [l, l]),
        TextureVertex::new([n, p, p], w, [o, l]),
        //
        TextureVertex::new([n, n, n], w, [o, o]),
        TextureVertex::new([n, p, n], w, [l, o]),
        TextureVertex::new([n, p, p], w, [l, l]),
        TextureVertex::new([n, n, p], w, [o, l]),
        //
        TextureVertex::new([p, n, n], w, [o, o]),
        TextureVertex::new([p, p, n], w, [l, o]),
        TextureVertex::new([p, p, p], w, [l, l]),
        TextureVertex::new([p, n, p], w, [o, l]),
        //
        TextureVertex::new([n, n, n], w, [o, o]),
        TextureVertex::new([n, n, p], w, [l, o]),
        TextureVertex::new([p, n, p], w, [l, l]),
        TextureVertex::new([p, n, n], w, [o, l]),
        //
        TextureVertex::new([n, p, n], w, [o, o]),
        TextureVertex::new([n, p, p], w, [l, o]),
        TextureVertex::new([p, p, p], w, [l, l]),
        TextureVertex::new([p, p, n], w, [o, l]),
    ];
    let indices: Vec<u16> = vec![
        0, 1, 2, 0, 2, 3, // one rectangle
        6, 5, 4, 7, 6, 4, //
        8, 9, 10, 8, 10, 11, //
        14, 13, 12, 15, 14, 12, //
        16, 17, 18, 16, 18, 19, //
        22, 21, 20, 23, 22, 20, //
    ];
    MeshData { verts, indices }
}

/// The bit pattern of two.
pub const TWO: u32 = 0x4000_0000;

/// The bit pattern of four.
pub const FOUR: u32 = 0x4080_0000;

/// The bit pattern of a third of pi, the vertical field of view.
pub const FOV_Y: u32 = 0x3F86_0A92;

/// The bit pattern of a hundredth, the near plane.
pub const Z_NEAR: u32 = 0x3C23_D70A;

/// The bit pattern of a hundred, the far plane.
pub const Z_FAR: u32 = 0x42C8_0000;

/// `c` is the camera of the cube: at (2, 2, 4), looking at the origin, the y
/// axis up.
pub open spec fn is_cube_camera(c: Camera) -> bool {
    &&& c.eye@ == seq![TWO, TWO, FOUR]
    &&& c.target@ == seq![ZERO, ZERO, ZERO]
    &&& c.up@ == seq![ZERO, ONE, ZERO]
    &&& c.fov_y == FOV_Y
    &&& c.z_near == Z_NEAR
    &&& c.z_far == Z_FAR
}

/// The camera of the cube.
pub fn camera() -> (c: Camera)
    ensures
        is_cube_camera(c),
{
    let c = Camera {
        // camera position
        eye: [TWO, TWO, FOUR],
        // focal point
        target: [ZERO, ZERO, ZERO],
        // up direction
        up: [ZERO, ONE, ZERO],
        fov_y: FOV_Y,
        z_near: Z_NEAR,
        z_far: Z_FAR,
    };
    assert(c.eye@ =~= seq![TWO, TWO, FOUR]);
    assert(c.target@ =~= seq![ZERO, ZERO, ZERO]);
    assert(c.up@ =~= seq![ZERO, ONE, ZERO]);
    c
}

/// Draws a textured cube
#[derive(Debug)]
pub struct CubeApp {
    pa: PassAction,
    shd: Shader,
    tex: Texture2dDrop,
    mesh: StaticMesh<CubeVertex>,
}

/// `cmds` are the commands of one frame of the cube: a pass to the screen in
/// which the view-projection matrix of the cube's camera, for the frame's
/// size, goes to the first uniform block of the vertex stage, and the mesh
/// is drawn once, whole; then the frame is shown.
pub open spec fn is_cube_frame(
    cmds: Seq<Command>,
    pa: PassAction,
    shd: Shader,
    mesh: StaticMesh<CubeVertex>,
    width: u32,
    height: u32,
) -> bool {
    &&& cmds.len() == 7
    &&& cmds[0] == (Command::BeginDefaultPass { action: pa, width, height })
    &&& cmds[1] == (Command::ApplyPipeline { pip: shd.pip() })
    &&& cmds[2] matches Command::ApplyUniforms {
        stage: ShaderStage::Vs,
        ub_index: 0,
        uniform: Uniform::ViewProjection { camera, width: w, height: h },
    }
    &&& is_cube_camera(camera)
    &&& w == width
    &&& h == height
    &&& cmds[3] == (Command::ApplyBindings { bind: mesh.bindings() })
    &&& cmds[4] == (Command::Draw { base_elem: 0, n_elems: mesh.n_indices(), n_instances: 1 })
    &&& cmds[5] == Command::EndPass
    &&& cmds[6] == Command::Commit
}

impl CubeApp {
    pub closed spec fn pa(&self) -> PassAction {
        self.pa
    }

    pub closed spec fn shd(&self) -> Shader {
        self.shd
    }

    pub closed spec fn tex(&self) -> Texture2dDrop {
        self.tex
    }

    pub closed spec fn mesh(&self) -> StaticMesh<CubeVertex> {
        self.mesh
    }

    /// The scene, of the resources that the driver has created. The texture
    /// is bound to the first image slot of the mesh.
    pub fn new(shd: Shader, tex: Texture2dDrop, mesh: StaticMesh<CubeVertex>) -> (app: Self)
        ensures
            app.pa().action == spec_background().action,
            app.pa().color@ == spec_background().color@,
            app.shd() == shd,
            app.tex() == tex,
            app.mesh().bindings().fs_images@ == mesh.bindings().fs_images@.update(0, tex.img()),
            app.mesh().bindings().vertex_buffer == mesh.bindings().vertex_buffer,
            app.mesh().bindings().index_buffer == mesh.bindings().index_buffer,
            app.mesh().n_indices() == mesh.n_indices(),
    {
        let mut mesh = mesh;
        mesh.bind_img(tex.img(), 0);
        Self { pa: background(), shd, tex, mesh }
    }

    /// The commands of one frame, for a screen of `width` by `height` pixels.
    pub fn frame(&mut self, width: u32, height: u32) -> (cmds: Vec<Command>)
        ensures
            *final(self) == *old(self),
            is_cube_frame(
                cmds@,
                old(self).pa(),
                old(self).shd(),
                old(self).mesh(),
                width,
                height,
            ),
    {
        let mut cmds: Vec<Command> = Vec::new();
        cmds.push(Command::BeginDefaultPass { action: self.pa, width, height });

        cmds.push(self.shd.apply_pip());

        cmds.push(
            Command::ApplyUniforms {
                stage: ShaderStage::Vs,
                ub_index: 0,
                uniform: Uniform::ViewProjection { camera: camera(), width, height },
            },
        );

        let draw = self.mesh.draw_all();
        cmds.push(draw[0]);
        cmds.push(draw[1]);

        cmds.push(Command::EndPass);
        cmds.push(Command::Commit);
        cmds
    }

    /// Gives the scene up: the commands that destroy what it owns, in the
    /// order shader, texture, mesh, each resource once.
    pub fn release(self) -> (cmds: Vec<Command>)
        ensures
            cmds@ == seq![
                Command::DestroyProgram { shd: self.shd().shd() },
                Command::DestroyPipeline { pip: self.shd().pip() },
                Command::DestroyImage { img: self.tex().img() },
                Command::DestroyBuffer { buf: self.mesh().bindings().vertex_buffer },
                Command::DestroyBuffer { buf: self.mesh().bindings().index_buffer },
            ],
    {
        let shd = self.shd.release();
        let tex = self.tex.release();
        let mesh = self.mesh.release();
        let mut cmds: Vec<Command> = Vec::new();
        cmds.push(shd[0]);
        cmds.push(shd[1]);
        cmds.push(tex);
        cmds.push(mesh[0]);
        cmds.push(mesh[1]);
        assert(cmds@ =~= seq![
            Command::DestroyProgram { shd: self.shd().shd() },
            Command::DestroyPipeline { pip: self.shd().pip() },
            Command::DestroyImage { img: self.tex().img() },
            Command::DestroyBuffer { buf: self.mesh().bindings().vertex_buffer },
            Command::DestroyBuffer { buf: self.mesh().bindings().index_buffer },
        ]);
        cmds
    }
}

} // verus!
