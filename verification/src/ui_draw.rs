//! How the debug UI's meshes are packed into the per-frame vertex and index buffers and
//! drawn: each mesh goes after the previous one, and is drawn from where it was put.
use vstd::prelude::*;

verus! {

/// The bytes of a vertex buffer for the debug UI.
pub const VERTEX_BUFFER_SIZE: u64 = 4194304;
/// The bytes of an index buffer for the debug UI.
pub const INDEX_BUFFER_SIZE: u64 = 2097152;

/// Where the next mesh goes: byte offsets into the vertex and index buffers, and the
/// first vertex and index it will use.
#[derive(Debug, Clone, Copy, PartialEq, Eq, Structural)]
pub struct MeshCursor {
    pub vertex_offset: u64,
    pub index_offset: u64,
    pub vertex_base: i32,
    pub index_base: u32,
}

/// One mesh to draw: its size in bytes in each buffer, and the indexed draw for it.
#[derive(Debug, Clone, Copy, PartialEq, Eq, Structural)]
pub struct MeshDraw {
    pub vertex_copy_size: u64,
    pub index_copy_size: u64,
    pub vertex_dst_offset: u64,
    pub index_dst_offset: u64,
    pub index_count: u32,
    pub first_index: u32,
    pub vertex_offset: i32,
}

impl MeshCursor {
    pub fn new() -> (cursor: Self)
        ensures
            cursor == (MeshCursor { vertex_offset: 0, index_offset: 0, vertex_base: 0, index_base: 0 }),
    {
        MeshCursor { vertex_offset: 0, index_offset: 0, vertex_base: 0, index_base: 0 }
    }

    /// Whether a mesh of these byte sizes fits: what follows it must still lie inside
    /// both buffers.
    pub open spec fn fits(self, vertex_bytes: int, index_bytes: int, vertex_capacity: int, index_capacity: int) -> bool {
        self.vertex_offset + vertex_bytes < vertex_capacity && self.index_offset + index_bytes < index_capacity
    }

    pub fn mesh_fits(&self, vertex_bytes: u64, index_bytes: u64, vertex_capacity: u64, index_capacity: u64) -> (fits: bool)
        ensures
            fits == self.fits(vertex_bytes as int, index_bytes as int, vertex_capacity as int, index_capacity as int),
    {
        vertex_bytes < vertex_capacity && self.vertex_offset < vertex_capacity - vertex_bytes
            && index_bytes < index_capacity && self.index_offset < index_capacity - index_bytes
    }

    /// Puts a mesh of `vertex_count` vertices of `vertex_size` bytes and `index_count`
    /// indices of `index_size` bytes at the cursor, gives its draw, and moves the cursor
    /// past it.
    pub fn place_mesh(
        &mut self,
        vertex_count: u32,
        vertex_size: u32,
        index_count: u32,
        index_size: u32,
        vertex_capacity: u64,
        index_capacity: u64,
    ) -> (draw: MeshDraw)
        requires
            old(self).fits(vertex_count * vertex_size, index_count * index_size, vertex_capacity as int, index_capacity as int),
            vertex_count <= i32::MAX,
            old(self).vertex_base + vertex_count <= i32::MAX,
            old(self).index_base + index_count <= u32::MAX,
        ensures
            (draw, *final(self)) == place(*old(self), vertex_count, vertex_size, index_count, index_size),
    {
        let vertex_copy_size = vertex_count as u64 * vertex_size as u64;
        let index_copy_size = index_count as u64 * index_size as u64;
        let draw = MeshDraw {
            vertex_copy_size,
            index_copy_size,
            vertex_dst_offset: self.vertex_offset,
            index_dst_offset: self.index_offset,
            index_count,
            first_index: self.index_base,
            vertex_offset: self.vertex_base,
        };
        self.vertex_offset = self.vertex_offset + vertex_copy_size;
        self.index_offset = self.index_offset + index_copy_size;
        self.vertex_base = self.vertex_base + vertex_count as i32;
        self.index_base = self.index_base + index_count;
        draw
    }
}

/// The draw of a mesh put at cursor `c`, and the cursor after it.
pub open spec fn place(c: MeshCursor, vertex_count: u32, vertex_size: u32, index_count: u32, index_size: u32) -> (MeshDraw, MeshCursor) {
    (
        MeshDraw {
            vertex_copy_size: (vertex_count * vertex_size) as u64,
            index_copy_size: (index_count * index_size) as u64,
            vertex_dst_offset: c.vertex_offset,
            index_dst_offset: c.index_offset,
            index_count,
            first_index: c.index_base,
            vertex_offset: c.vertex_base,
        },
        MeshCursor {
            vertex_offset: (c.vertex_offset + vertex_count * vertex_size) as u64,
            index_offset: (c.index_offset + index_count * index_size) as u64,
            vertex_base: (c.vertex_base + vertex_count) as i32,
            index_base: (c.index_base + index_count) as u32,
        },
    )
}

/// Meshes placed one after the other never overlap: the second one's bytes start where
/// the first one's end, in both buffers, and it draws from the indices after the first
/// one's.
pub proof fn placed_meshes_do_not_overlap(
    c: MeshCursor,
    vertex_count: u32,
    vertex_size: u32,
    index_count: u32,
    index_size: u32,
    vertex_count2: u32,
    vertex_size2: u32,
    index_count2: u32,
    index_size2: u32,
    vertex_capacity: u64,
    index_capacity: u64,
)
    requires
        c.fits(vertex_count * vertex_size, index_count * index_size, vertex_capacity as int, index_capacity as int),
        c.index_base + index_count <= u32::MAX,
    ensures
        ({
            let (first, next) = place(c, vertex_count, vertex_size, index_count, index_size);
            let (second, _) = place(next, vertex_count2, vertex_size2, index_count2, index_size2);
            &&& first.vertex_dst_offset + first.vertex_copy_size == second.vertex_dst_offset
            &&& first.index_dst_offset + first.index_copy_size == second.index_dst_offset
            &&& first.first_index + first.index_count == second.first_index
        }),
{
}

} // verus!
