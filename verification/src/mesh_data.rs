//! Well-formedness of raw mesh buffers: a flat vertex buffer of coordinates
//! grouped per vertex, and an index buffer whose consecutive triples are
//! triangles referencing vertices by 0-based index.

use vstd::prelude::*;

verus! {

/// Coordinates per vertex in the flat vertex buffer (x, y, z).
pub const VERTEX_STRIDE: usize = 3;

/// Every index refers to one of the first `vertex_count` vertices.
pub open spec fn indices_in_range(indices: Seq<u32>, vertex_count: nat) -> bool {
    forall|k: int| 0 <= k < indices.len() ==> (indices[k] as nat) < vertex_count
}

/// A raw mesh buffer pair is well formed when the vertex buffer holds whole
/// vertices, the index buffer holds whole triangles, and every index refers
/// to an existing vertex.
pub open spec fn mesh_well_formed(vertex_floats: nat, indices: Seq<u32>) -> bool {
    &&& vertex_floats % (VERTEX_STRIDE as nat) == 0
    &&& indices.len() % 3 == 0
    &&& indices_in_range(indices, vertex_floats / (VERTEX_STRIDE as nat))
}

/// Checks that a mesh produced by the extraction engine is well formed:
/// `vertex_floats` is the length of the flat vertex buffer, `indices` the
/// triangle index buffer.
pub fn mesh_valid(vertex_floats: usize, indices: &Vec<u32>) -> (b: bool)
    ensures
        b == mesh_well_formed(vertex_floats as nat, indices@),
{
    if vertex_floats % VERTEX_STRIDE != 0 {
        return false;
    }
    if indices.len() % 3 != 0 {
        return false;
    }
    let vertex_count: usize = vertex_floats / VERTEX_STRIDE;
    let mut k: usize = 0;
    while k < indices.len()
        invariant
            k <= indices@.len(),
            vertex_count == vertex_floats as nat / (VERTEX_STRIDE as nat),
            forall|j: int| 0 <= j < k ==> (indices@[j] as nat) < vertex_count as nat,
        decreases indices@.len() - k,
    {
        if indices[k] as usize >= vertex_count {
            return false;
        }
        k = k + 1;
    }
    true
}

} // verus!
