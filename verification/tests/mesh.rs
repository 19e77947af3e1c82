use rokol_learn_opengl::apps::cube::gen_cube_mesh;
use rokol_learn_opengl::gfx::bytes::{push_u16_le, push_u32_le};
use rokol_learn_opengl::gfx::command::{Bindings, Command};
use rokol_learn_opengl::gfx::handle::{Buffer, Image};
use rokol_learn_opengl::gfx::kinds::{BufferType, ResourceUsage};
use rokol_learn_opengl::gfx::mesh::Vertex;
use rokol_learn_opengl::gfx::{MeshData, StaticMesh};
use rokol_learn_opengl::shaders::{TextureVertex, TriangleVertex};

fn textured(pos: [f32; 3], color: [u8; 4], uv: [f32; 2]) -> TextureVertex {
    TextureVertex {
        pos: [pos[0].to_bits(), pos[1].to_bits(), pos[2].to_bits()],
        color,
        uv: [uv[0].to_bits(), uv[1].to_bits()],
    }
}

#[test]
fn cube_mesh_is_the_table_of_six_rectangles() {
    let w = [255, 255, 255, 255];
    let want = vec![
        textured([-1.0, -1.0, -1.0], w, [0.0, 0.0]),
        textured([1.0, -1.0, -1.0], w, [1.0, 0.0]),
        textured([1.0, 1.0, -1.0], w, [1.0, 1.0]),
        textured([-1.0, 1.0, -1.0], w, [0.0, 1.0]),
        //
        textured([-1.0, -1.0, 1.0], w, [0.0, 0.0]),
        textured([1.0, -1.0, 1.0], w, [1.0, 0.0]),
        textured([1.0, 1.0, 1.0], w, [1.0, 1.0]),
        textured([-1.0, 1.0, 1.0], w, [0.0, 1.0]),
        //
        textured([-1.0, -1.0, -1.0], w, [0.0, 0.0]),
        textured([-1.0, 1.0, -1.0], w, [1.0, 0.0]),
        textured([-1.0, 1.0, 1.0], w, [1.0, 1.0]),
        textured([-1.0, -1.0, 1.0], w, [0.0, 1.0]),
        //
        textured([1.0, -1.0, -1.0], w, [0.0, 0.0]),
        textured([1.0, 1.0, -1.0], w, [1.0, 0.0]),
        textured([1.0, 1.0, 1.0], w, [1.0, 1.0]),
        textured([1.0, -1.0, 1.0], w, [0.0, 1.0]),
        //
        textured([-1.0, -1.0, -1.0], w, [0.0, 0.0]),
        textured([-1.0, -1.0, 1.0], w, [1.0, 0.0]),
        textured([1.0, -1.0, 1.0], w, [1.0, 1.0]),
        textured([1.0, -1.0, -1.0], w, [0.0, 1.0]),
        //
        textured([-1.0, 1.0, -1.0], w, [0.0, 0.0]),
        textured([-1.0, 1.0, 1.0], w, [1.0, 0.0]),
        textured([1.0, 1.0, 1.0], w, [1.0, 1.0]),
        textured([1.0, 1.0, -1.0], w, [0.0, 1.0]),
    ];
    let mesh = gen_cube_mesh();
    assert_eq!(mesh.verts, want);
    assert_eq!(
        mesh.indices,
        vec![
            0, 1, 2, 0, 2, 3, //
            6, 5, 4, 7, 6, 4, //
            8, 9, 10, 8, 10, 11, //
            14, 13, 12, 15, 14, 12, //
            16, 17, 18, 16, 18, 19, //
            22, 21, 20, 23, 22, 20, //
        ]
    );
}

#[test]
fn cube_indices_name_vertices_of_their_own_face() {
    let mesh = gen_cube_mesh();
    assert_eq!(mesh.verts.len(), 24);
    assert_eq!(mesh.indices.len(), 36);
    for (j, index) in mesh.indices.iter().enumerate() {
        assert_eq!(*index as usize / 4, j / 6);
    }
}

#[test]
fn cube_faces_are_flat_and_their_corners_differ() {
    let mesh = gen_cube_mesh();
    for face in 0..6 {
        let fixed = (face / 2 + 2) % 3;
        let side = if face % 2 == 0 { -1.0f32 } else { 1.0f32 };
        for corner in 0..4 {
            let v = mesh.verts[4 * face + corner];
            assert_eq!(f32::from_bits(v.pos[fixed]), side);
            for other in 0..corner {
                assert_ne!(v.pos, mesh.verts[4 * face + other].pos);
            }
        }
    }
}

#[test]
fn u16_goes_low_byte_first() {
    let mut out = vec![0xEE];
    push_u16_le(&mut out, 0x1234);
    assert_eq!(out, vec![0xEE, 0x34, 0x12]);
    assert_eq!(&out[1..], &0x1234u16.to_le_bytes());
}

#[test]
fn u32_goes_low_byte_first() {
    let mut out = vec![0xEE];
    push_u32_le(&mut out, 0x1234_5678);
    assert_eq!(out, vec![0xEE, 0x78, 0x56, 0x34, 0x12]);
    let mut edge = Vec::new();
    push_u32_le(&mut edge, u32::MAX);
    push_u32_le(&mut edge, 0);
    assert_eq!(edge, vec![255, 255, 255, 255, 0, 0, 0, 0]);
}

#[test]
fn textured_vertex_is_twenty_four_bytes() {
    let v = textured([1.0, -1.0, 0.5], [1, 2, 3, 4], [0.0, 1.0]);
    let mut out = Vec::new();
    v.write_bytes(&mut out);
    let mut want = Vec::new();
    want.extend_from_slice(&1.0f32.to_le_bytes());
    want.extend_from_slice(&(-1.0f32).to_le_bytes());
    want.extend_from_slice(&0.5f32.to_le_bytes());
    want.extend_from_slice(&[1, 2, 3, 4]);
    want.extend_from_slice(&0.0f32.to_le_bytes());
    want.extend_from_slice(&1.0f32.to_le_bytes());
    assert_eq!(out, want);
    assert_eq!(out.len(), 24);
    assert_eq!(TextureVertex::layout_desc().stride(), 24);
}

#[test]
fn triangle_vertex_is_twenty_eight_bytes() {
    let v = TriangleVertex::new(
        [0.0f32.to_bits(), 0.5f32.to_bits(), (-0.5f32).to_bits()],
        [1.0f32.to_bits(), 0, 0, 1.0f32.to_bits()],
    );
    let mut out = vec![7u8];
    v.write_bytes(&mut out);
    let mut want = vec![7u8];
    for x in [0.0f32, 0.5, -0.5, 1.0, 0.0, 0.0, 1.0] {
        want.extend_from_slice(&x.to_le_bytes());
    }
    assert_eq!(out, want);
    assert_eq!(out.len() - 1, 28);
    assert_eq!(TriangleVertex::layout_desc().stride(), 28);
}

#[test]
fn buffer_descriptions_hold_the_bytes_of_the_mesh() {
    let mesh = gen_cube_mesh();
    let vbuf = mesh.vertex_buffer_desc();
    assert_eq!(vbuf.buffer_type, BufferType::Vertex);
    assert_eq!(vbuf.usage, ResourceUsage::Immutable);
    assert_eq!(vbuf.data.len(), 24 * 24);
    // vertex 1 is (1, -1, -1), white, (1, 0)
    let mut second = Vec::new();
    textured([1.0, -1.0, -1.0], [255; 4], [1.0, 0.0]).write_bytes(&mut second);
    assert_eq!(&vbuf.data[24..48], &second[..]);

    let ibuf = mesh.index_buffer_desc();
    assert_eq!(ibuf.buffer_type, BufferType::Index);
    assert_eq!(ibuf.usage, ResourceUsage::Immutable);
    assert_eq!(ibuf.data.len(), 2 * 36);
    assert_eq!(&ibuf.data[..12], &[0, 0, 1, 0, 2, 0, 0, 0, 2, 0, 3, 0]);
    assert_eq!(&ibuf.data[70..], &[20, 0]);
}

#[test]
fn buffer_descriptions_of_an_empty_mesh_are_empty() {
    let mesh: MeshData<TextureVertex> = MeshData { verts: Vec::new(), indices: Vec::new() };
    assert_eq!(mesh.vertex_buffer_desc().data, Vec::<u8>::new());
    assert_eq!(mesh.index_buffer_desc().data, Vec::<u8>::new());
}

#[test]
fn index_above_255_takes_its_high_byte() {
    let mesh: MeshData<TextureVertex> = MeshData { verts: Vec::new(), indices: vec![0x0102, 0xFFFF] };
    assert_eq!(mesh.index_buffer_desc().data, vec![0x02, 0x01, 0xFF, 0xFF]);
}

#[test]
fn draw_all_draws_every_index_in_one_call() {
    let data = gen_cube_mesh();
    let mesh = StaticMesh::new_16(&data, Buffer { id: 11 }, Buffer { id: 12 });
    let cmds = mesh.draw_all();
    assert_eq!(
        cmds,
        [
            Command::ApplyBindings { bind: Bindings::new(Buffer { id: 11 }, Buffer { id: 12 }) },
            Command::Draw { base_elem: 0, n_elems: 36, n_instances: 1 },
        ]
    );
}

#[test]
fn draw_all_counts_indices_not_vertices() {
    let data: MeshData<TextureVertex> = MeshData {
        verts: vec![textured([0.0; 3], [0; 4], [0.0; 2]); 3],
        indices: vec![0, 1, 2, 2, 1, 0, 0, 2, 1],
    };
    let mesh = StaticMesh::new_16(&data, Buffer { id: 1 }, Buffer { id: 2 });
    assert_eq!(mesh.draw_all()[1], Command::Draw { base_elem: 0, n_elems: 9, n_instances: 1 });
}

#[test]
fn draw_all_of_an_empty_mesh_draws_nothing() {
    let data: MeshData<TextureVertex> = MeshData { verts: Vec::new(), indices: Vec::new() };
    let mesh = StaticMesh::new_16(&data, Buffer { id: 1 }, Buffer { id: 2 });
    assert_eq!(mesh.draw_all()[1], Command::Draw { base_elem: 0, n_elems: 0, n_instances: 1 });
}

#[test]
fn draw_takes_its_range_from_the_caller() {
    let data = gen_cube_mesh();
    let mesh = StaticMesh::new_16(&data, Buffer { id: 1 }, Buffer { id: 2 });
    assert_eq!(mesh.draw(6, 12)[1], Command::Draw { base_elem: 6, n_elems: 12, n_instances: 1 });
}

#[test]
fn bind_img_fills_one_slot() {
    let data = gen_cube_mesh();
    let mut mesh = StaticMesh::new_16(&data, Buffer { id: 1 }, Buffer { id: 2 });
    mesh.bind_img(Image { id: 9 }, 0);
    mesh.bind_img(Image { id: 8 }, 11);
    let mut want = Bindings::new(Buffer { id: 1 }, Buffer { id: 2 });
    want.fs_images[0] = Image { id: 9 };
    want.fs_images[11] = Image { id: 8 };
    let cmds = mesh.draw_all();
    assert_eq!(cmds[0], Command::ApplyBindings { bind: want });
    // binding an image leaves the number of indices alone
    assert_eq!(cmds[1], Command::Draw { base_elem: 0, n_elems: 36, n_instances: 1 });
}

#[test]
fn new_bindings_hold_no_image() {
    let bind = Bindings::new(Buffer { id: 1 }, Buffer { id: 2 });
    assert_eq!(bind.vertex_buffer, Buffer { id: 1 });
    assert_eq!(bind.index_buffer, Buffer { id: 2 });
    assert_eq!(bind.fs_images, [Image { id: 0 }; 12]);
}

#[test]
fn releasing_a_mesh_destroys_its_two_buffers() {
    let data = gen_cube_mesh();
    let mut mesh = StaticMesh::new_16(&data, Buffer { id: 1 }, Buffer { id: 2 });
    mesh.bind_img(Image { id: 9 }, 0);
    assert_eq!(
        mesh.release(),
        [
            Command::DestroyBuffer { buf: Buffer { id: 1 } },
            Command::DestroyBuffer { buf: Buffer { id: 2 } },
        ]
    );
}
