//! Indexed triangle meshes.

use core::marker::PhantomData;
use vstd::prelude::*;

use crate::gfx::bytes::{le_bytes_u16, push_u16_le};
use crate::gfx::command::{Bindings, Command, MAX_SHADERSTAGE_IMAGES};
use crate::gfx::handle::{Buffer, Image, INVALID_ID};
use crate::gfx::kinds::{BufferType, ResourceUsage};

verus! {

/// A record with a fixed layout in a vertex buffer.
pub trait Vertex: Sized {
    /// The bytes of the vertex: its attributes in order, each number with its
    /// least significant byte first.
    spec fn bytes(&self) -> Seq<u8>;

    /// Appends the bytes of the vertex to `out`.
    fn write_bytes(&self, out: &mut Vec<u8>)
        ensures
            final(out)@ == old(out)@ + self.bytes(),
    ;
}

/// The bytes of `verts`, one vertex after the other.
pub open spec fn vertex_bytes<V: Vertex>(verts: Seq<V>) -> Seq<u8>
    decreases verts.len(),
{
    if verts.len() == 0 {
        Seq::empty()
    } else {
        vertex_bytes(verts.drop_last()) + verts.last().bytes()
    }
}

/// The bytes of `indices`, two for each.
pub open spec fn index_bytes(indices: Seq<u16>) -> Seq<u8>
    decreases indices.len(),
{
    if indices.len() == 0 {
        Seq::empty()
    } else {
        index_bytes(indices.drop_last()) + le_bytes_u16(indices.last())
    }
}

/// Description of a buffer for the device to create.
#[derive(Debug, PartialEq, Eq)]
pub struct BufferDesc {
    pub buffer_type: BufferType,
    pub usage: ResourceUsage,
    /// Content of the buffer
    pub data: Vec<u8>,
}

/// Vertices and 16-bit indices of a mesh, before they are uploaded.
#[derive(Debug)]
pub struct MeshData<V> {
    pub verts: Vec<V>,
    pub indices: Vec<u16>,
}

impl<V> MeshData<V> {
    /// Every index names a vertex, and the indices form whole triangles.
    pub open spec fn wf(&self) -> bool {
        &&& self.indices@.len() % 3 == 0
        &&& forall|j: int|
            0 <= j < self.indices@.len() ==> (#[trigger] self.indices@[j]) < self.verts@.len()
    }
}

impl<V: Vertex> MeshData<V> {
    /// Description of the immutable buffer that holds the vertices.
    ///
    /// Every number is written with its least significant byte first. That
    /// is how the vertices lie in the memory of a little-endian host, which
    /// is assumed: the device reads the buffer in the host's byte order.
    pub fn vertex_buffer_desc(&self) -> (desc: BufferDesc)
        ensures
            desc.buffer_type == BufferType::Vertex,
            desc.usage == ResourceUsage::Immutable,
            desc.data@ == vertex_bytes(self.verts@),
    {
        let mut data: Vec<u8> = Vec::new();
        let mut i: usize = 0;
        while i < self.verts.len()
            invariant
                i <= self.verts@.len(),
                data@ == vertex_bytes(self.verts@.take(i as int)),
            decreases self.verts@.len() - i,
        {
            proof {
                let next = self.verts@.take(i + 1);
                assert(next.drop_last() =~= self.verts@.take(i as int));
                assert(next.last() == self.verts@[i as int]);
            }
            self.verts[i].write_bytes(&mut data);
            i = i + 1;
        }
        assert(self.verts@.take(i as int) =~= self.verts@);
        BufferDesc { buffer_type: BufferType::Vertex, usage: ResourceUsage::Immutable, data }
    }

    /// Description of the immutable buffer that holds the indices.
    ///
    /// Every index is written with its least significant byte first, as it
    /// lies in the memory of a little-endian host, which is assumed.
    pub fn index_buffer_desc(&self) -> (desc: BufferDesc)
        ensures
            desc.buffer_type == BufferType::Index,
            desc.usage == ResourceUsage::Immutable,
            desc.data@ == index_bytes(self.indices@),
            desc.data@.len() == 2 * self.indices@.len(),
    {
        proof {
            lemma_index_bytes_len(self.indices@);
        }
        let mut data: Vec<u8> = Vec::new();
        let mut i: usize = 0;
        while i < self.indices.len()
            invariant
                i <= self.indices@.len(),
                data@ == index_bytes(self.indices@.take(i as int)),
            decreases self.indices@.len() - i,
        {
            proof {
                let next = self.indices@.take(i + 1);
                assert(next.drop_last() =~= self.indices@.take(i as int));
                assert(next.last() == self.indices@[i as int]);
            }
            push_u16_le(&mut data, self.indices[i]);
            i = i + 1;
        }
        assert(self.indices@.take(i as int) =~= self.indices@);
        BufferDesc { buffer_type: BufferType::Index, usage: ResourceUsage::Immutable, data }
    }
}

/// There are two bytes in the index buffer for every index.
pub proof fn lemma_index_bytes_len(indices: Seq<u16>)
    ensures
        index_bytes(indices).len() == 2 * indices.len(),
    decreases indices.len(),
{
    if indices.len() > 0 {
        lemma_index_bytes_len(indices.drop_last());
    }
}

/// A mesh on the device: its two buffers, the images bound to it, and the
/// number of its indices.
#[derive(Debug)]
pub struct StaticMesh<V> {
    bind: Bindings,
    n_indices: usize,
    _phantom: PhantomData<V>,
}

impl<V> StaticMesh<V> {
    /// What a draw call of this mesh reads.
    pub closed spec fn bindings(&self) -> Bindings {
        self.bind
    }

    /// Number of indices in the index buffer.
    pub closed spec fn n_indices(&self) -> usize {
        self.n_indices
    }

    /// The commands that draw `n_indices` indices of a mesh, from index
    /// `base_elem` on: its bindings are applied, then one instance is drawn.
    pub open spec fn spec_draw(&self, base_elem: usize, n_indices: usize) -> Seq<Command> {
        seq![
            Command::ApplyBindings { bind: self.bindings() },
            Command::Draw { base_elem, n_elems: n_indices, n_instances: 1 },
        ]
    }

    /// `self` is the mesh that `new_16` makes of `data` and the two buffers.
    pub open spec fn made_of(&self, data: &MeshData<V>, vbuf: Buffer, ibuf: Buffer) -> bool {
        &&& self.n_indices() == data.indices@.len()
        &&& self.bindings().vertex_buffer == vbuf
        &&& self.bindings().index_buffer == ibuf
        &&& forall|s: int|
            0 <= s < 12 ==> (#[trigger] self.bindings().fs_images[s]).id == INVALID_ID
    }

    /// The mesh of `data`, once the device has created `vbuf` and `ibuf` from
    /// the two buffer descriptions of `data`. No image is bound yet.
    pub fn new_16(data: &MeshData<V>, vbuf: Buffer, ibuf: Buffer) -> (mesh: Self)
        ensures
            mesh.made_of(data, vbuf, ibuf),
    {
        StaticMesh {
            bind: Bindings::new(vbuf, ibuf),
            n_indices: data.indices.len(),
            _phantom: PhantomData,
        }
    }

    /// Binds `img` to image slot `slot` of the fragment stage.
    pub fn bind_img(&mut self, img: Image, slot: usize)
        requires
            slot < MAX_SHADERSTAGE_IMAGES,
        ensures
            final(self).bindings().fs_images@ == old(self).bindings().fs_images@.update(
                slot as int,
                img,
            ),
            final(self).bindings().vertex_buffer == old(self).bindings().vertex_buffer,
            final(self).bindings().index_buffer == old(self).bindings().index_buffer,
            final(self).n_indices() == old(self).n_indices(),
    {
        self.bind.fs_images[slot] = img;
    }

    /// The commands that draw `n_indices` indices of the mesh, from index
    /// `base_elem` on.
    pub fn draw(&self, base_elem: usize, n_indices: usize) -> (cmds: [Command; 2])
        ensures
            cmds@ == self.spec_draw(base_elem, n_indices),
    {
        let cmds = [
            Command::ApplyBindings { bind: self.bind },
            Command::Draw { base_elem, n_elems: n_indices, n_instances: 1 },
        ];
        assert(cmds@ =~= self.spec_draw(base_elem, n_indices));
        cmds
    }

    /// The commands that draw the whole mesh: one draw call over every index.
    pub fn draw_all(&self) -> (cmds: [Command; 2])
        ensures
            cmds@ == self.spec_draw(0, self.n_indices()),
    {
        self.draw(0, self.n_indices)
    }

    /// Gives the mesh up. Its two buffers are destroyed, each once; the images
    /// bound to it belong to their textures and stay.
    pub fn release(self) -> (cmds: [Command; 2])
        ensures
            cmds@ == seq![
                Command::DestroyBuffer { buf: self.bindings().vertex_buffer },
                Command::DestroyBuffer { buf: self.bindings().index_buffer },
            ],
    {
        let cmds = [
            Command::DestroyBuffer { buf: self.bind.vertex_buffer },
            Command::DestroyBuffer { buf: self.bind.index_buffer },
        ];
        assert(cmds@ =~= seq![
            Command::DestroyBuffer { buf: self.bindings().vertex_buffer },
            Command::DestroyBuffer { buf: self.bindings().index_buffer },
        ]);
        cmds
    }
}

/// Drawing a whole mesh draws as many indexed vertices as the mesh was made
/// with, in one call, also after images were bound to it.
pub proof fn lemma_draw_all_covers_indices<V>(
    mesh: StaticMesh<V>,
    data: &MeshData<V>,
    vbuf: Buffer,
    ibuf: Buffer,
    bound: StaticMesh<V>,
)
    requires
        mesh.made_of(data, vbuf, ibuf),
        bound.n_indices() == mesh.n_indices(),
    ensures
        mesh.spec_draw(0, mesh.n_indices())[1] == (Command::Draw {
            base_elem: 0,
            n_elems: data.indices@.len() as usize,
            n_instances: 1,
        }),
        bound.spec_draw(0, bound.n_indices())[1] == mesh.spec_draw(0, mesh.n_indices())[1],
        mesh.spec_draw(0, mesh.n_indices()).len() == 2,
        mesh.spec_draw(0, mesh.n_indices())[0] is ApplyBindings,
{
}

} // verus!
