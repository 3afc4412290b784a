//! The vertex buffer that the hit shaders read: for every index of every
//! mesh the position and the normal of its vertex, six floats, mesh after
//! mesh.

use crate::scene::scenes::mesh::Mesh;
use vstd::prelude::*;

verus! {

/// An index of a mesh that names no vertex: the mesh has no position or no
/// normal for it.
#[derive(Clone, Copy, Debug, PartialEq, Eq, Structural)]
pub struct VertexError {
    /// Index of the mesh.
    pub mesh: usize,
    /// Place of the index among the indices of the mesh.
    pub index: usize,
}

/// Whether the index at place `k` of `mesh` names a vertex that has a
/// position and a normal.
pub open spec fn names_vertex(mesh: Mesh, k: int) -> bool {
    let v = mesh.indices@[k] as int;
    3 * v + 3 <= mesh.positions@.len() && 3 * v + 3 <= mesh.normals@.len()
}

/// The position and the normal of the vertex with index `v`.
pub open spec fn vertex_words(mesh: Mesh, v: int) -> Seq<u32> {
    seq![
        mesh.positions@[3 * v],
        mesh.positions@[3 * v + 1],
        mesh.positions@[3 * v + 2],
        mesh.normals@[3 * v],
        mesh.normals@[3 * v + 1],
        mesh.normals@[3 * v + 2],
    ]
}

/// The vertices that the first `n` indices of `mesh` name.
pub open spec fn mesh_words(mesh: Mesh, n: int) -> Seq<u32>
    decreases n,
{
    if n <= 0 {
        Seq::empty()
    } else {
        mesh_words(mesh, n - 1) + vertex_words(mesh, mesh.indices@[n - 1] as int)
    }
}

/// The vertices of the first `n` meshes.
pub open spec fn scene_words(meshes: Seq<Mesh>, n: int) -> Seq<u32>
    decreases n,
{
    if n <= 0 {
        Seq::empty()
    } else {
        scene_words(meshes, n - 1) + mesh_words(
            meshes[n - 1],
            meshes[n - 1].indices@.len() as int,
        )
    }
}

/// Whether `result` is what the meshes come to: their vertices, or the
/// first index that names none.
pub open spec fn is_vertex_result(meshes: Seq<Mesh>, result: Result<Seq<u32>, VertexError>) -> bool {
    match result {
        Ok(words) => {
            &&& words == scene_words(meshes, meshes.len() as int)
            &&& forall|m: int, k: int|
                0 <= m < meshes.len() && 0 <= k < meshes[m].indices@.len() ==> #[trigger] names_vertex(
                    meshes[m],
                    k,
                )
        },
        Err(e) => {
            &&& e.mesh < meshes.len()
            &&& e.index < meshes[e.mesh as int].indices@.len()
            &&& !names_vertex(meshes[e.mesh as int], e.index as int)
            &&& forall|k: int| 0 <= k < e.index ==> #[trigger] names_vertex(meshes[e.mesh as int], k)
            &&& forall|m: int, k: int|
                0 <= m < e.mesh && 0 <= k < meshes[m].indices@.len() ==> #[trigger] names_vertex(
                    meshes[m],
                    k,
                )
        },
    }
}

/// The vertices of `meshes` as the hit shaders read them.
pub fn vertex_normal_data(meshes: &[Mesh]) -> (data: Result<Vec<u32>, VertexError>)
    ensures
        is_vertex_result(
            meshes@,
            match data {
                Ok(d) => Ok(d@),
                Err(e) => Err(e),
            },
        ),
{
    let mut data: Vec<u32> = Vec::new();
    let mut m: usize = 0;
    while m < meshes.len()
        invariant
            m <= meshes@.len(),
            data@ == scene_words(meshes@, m as int),
            forall|a: int, k: int|
                0 <= a < m && 0 <= k < meshes@[a].indices@.len() ==> #[trigger] names_vertex(
                    meshes@[a],
                    k,
                ),
        decreases meshes@.len() - m,
    {
        let mesh = &meshes[m];
        let ghost start = data@;
        let mut k: usize = 0;
        while k < mesh.indices.len()
            invariant
                m < meshes@.len(),
                *mesh == meshes@[m as int],
                k <= mesh.indices@.len(),
                data@ == start + mesh_words(*mesh, k as int),
                forall|j: int| 0 <= j < k ==> #[trigger] names_vertex(*mesh, j),
                forall|a: int, j: int|
                    0 <= a < m && 0 <= j < meshes@[a].indices@.len() ==> #[trigger] names_vertex(
                        meshes@[a],
                        j,
                    ),
            decreases mesh.indices@.len() - k,
        {
            let v: u64 = mesh.indices[k] as u64;
            let end: u64 = 3 * v + 3;
            if end > mesh.positions.len() as u64 || end > mesh.normals.len() as u64 {
                return Err(VertexError { mesh: m, index: k });
            }
            let at: usize = (3 * v) as usize;
            let ghost before = data@;
            data.push(mesh.positions[at]);
            data.push(mesh.positions[at + 1]);
            data.push(mesh.positions[at + 2]);
            data.push(mesh.normals[at]);
            data.push(mesh.normals[at + 1]);
            data.push(mesh.normals[at + 2]);
            assert(data@ =~= before + vertex_words(*mesh, v as int));
            assert(data@ =~= start + mesh_words(*mesh, k + 1));
            k += 1;
        }
        m += 1;
    }
    Ok(data)
}

} // verus!
