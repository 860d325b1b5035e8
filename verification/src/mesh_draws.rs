//! Drawing many meshes from one vertex buffer and one index buffer: each mesh's vertices
//! and indices are appended in turn, and its draw starts where its own data starts.
use vstd::prelude::*;

verus! {

/// What a mesh adds to the shared buffers: its vertex and index counts, and the
/// material image it samples, if any.
#[derive(Debug, Clone, Copy, PartialEq, Eq, Structural)]
pub struct MeshCounts {
    pub vertex_count: u32,
    pub index_count: u32,
    pub material_index: Option<u32>,
}

/// How one mesh is drawn from the shared buffers.
#[derive(Debug, Clone, Copy, PartialEq, Eq, Structural)]
pub struct MeshDraw {
    pub vertex_buffer_offset: i32,
    pub index_buffer_offset: u32,
    pub num_indices: u32,
    pub image_index: Option<u32>,
}

/// The vertices of the first `k` meshes.
pub open spec fn vertices_before(meshes: Seq<MeshCounts>, k: int) -> int
    decreases k,
{
    if k <= 0 {
        0
    } else {
        vertices_before(meshes, k - 1) + meshes[k - 1].vertex_count
    }
}

/// The indices of the first `k` meshes.
pub open spec fn indices_before(meshes: Seq<MeshCounts>, k: int) -> int
    decreases k,
{
    if k <= 0 {
        0
    } else {
        indices_before(meshes, k - 1) + meshes[k - 1].index_count
    }
}

/// The draw of mesh `k`: from the vertices and indices of the meshes before it, its own
/// index count and material image.
pub open spec fn mesh_draw(meshes: Seq<MeshCounts>, k: int) -> MeshDraw {
    MeshDraw {
        vertex_buffer_offset: vertices_before(meshes, k) as i32,
        index_buffer_offset: indices_before(meshes, k) as u32,
        num_indices: meshes[k].index_count,
        image_index: meshes[k].material_index,
    }
}

proof fn lemma_before_nonneg(meshes: Seq<MeshCounts>, k: int)
    ensures
        0 <= vertices_before(meshes, k),
        0 <= indices_before(meshes, k),
    decreases k,
{
    if k > 0 {
        lemma_before_nonneg(meshes, k - 1);
    }
}

proof fn lemma_before_monotonic(meshes: Seq<MeshCounts>, j: int, k: int)
    requires
        0 <= j <= k <= meshes.len(),
    ensures
        0 <= vertices_before(meshes, j) <= vertices_before(meshes, k),
        0 <= indices_before(meshes, j) <= indices_before(meshes, k),
    decreases k - j,
{
    lemma_before_nonneg(meshes, j);
    if j < k {
        lemma_before_monotonic(meshes, j, k - 1);
    }
}

/// The draws of `meshes`, in order. The shared buffers must be addressable: their vertex
/// count fits a signed and their index count an unsigned 32-bit draw offset.
pub fn mesh_draws(meshes: &Vec<MeshCounts>) -> (draws: Vec<MeshDraw>)
    requires
        vertices_before(meshes@, meshes@.len() as int) <= i32::MAX,
        indices_before(meshes@, meshes@.len() as int) <= u32::MAX,
    ensures
        draws@.len() == meshes@.len(),
        forall|k: int| 0 <= k < meshes@.len() ==> #[trigger] draws@[k] == mesh_draw(meshes@, k),
{
    let mut draws: Vec<MeshDraw> = Vec::new();
    let mut first_vertex: u32 = 0;
    let mut first_index: u32 = 0;
    let mut k: usize = 0;
    while k < meshes.len()
        invariant
            k <= meshes@.len(),
            vertices_before(meshes@, meshes@.len() as int) <= i32::MAX,
            indices_before(meshes@, meshes@.len() as int) <= u32::MAX,
            first_vertex == vertices_before(meshes@, k as int),
            first_index == indices_before(meshes@, k as int),
            draws@.len() == k,
            forall|j: int| 0 <= j < k ==> #[trigger] draws@[j] == mesh_draw(meshes@, j),
        decreases meshes@.len() - k,
    {
        let mesh = meshes[k];
        proof {
            lemma_before_monotonic(meshes@, k as int + 1, meshes@.len() as int);
        }
        draws.push(MeshDraw {
            vertex_buffer_offset: first_vertex as i32,
            index_buffer_offset: first_index,
            num_indices: mesh.index_count,
            image_index: mesh.material_index,
        });
        first_vertex = first_vertex + mesh.vertex_count;
        first_index = first_index + mesh.index_count;
        k += 1;
    }
    draws
}

/// Each mesh draws its own stretch of the shared buffers: the next mesh's vertices and
/// indices start right after its own, so no two draws share an index.
pub proof fn draws_are_contiguous(meshes: Seq<MeshCounts>, k: int)
    requires
        0 <= k,
        k + 1 < meshes.len(),
        vertices_before(meshes, meshes.len() as int) <= i32::MAX,
        indices_before(meshes, meshes.len() as int) <= u32::MAX,
    ensures
        mesh_draw(meshes, k + 1).vertex_buffer_offset == mesh_draw(meshes, k).vertex_buffer_offset
            + meshes[k].vertex_count,
        mesh_draw(meshes, k + 1).index_buffer_offset == mesh_draw(meshes, k).index_buffer_offset
            + mesh_draw(meshes, k).num_indices,
{
    lemma_before_monotonic(meshes, k + 1, meshes.len() as int);
    lemma_before_monotonic(meshes, k, k + 1);
    assert(vertices_before(meshes, k + 1) == vertices_before(meshes, k) + meshes[k].vertex_count);
    assert(indices_before(meshes, k + 1) == indices_before(meshes, k) + meshes[k].index_count);
}

} // verus!
