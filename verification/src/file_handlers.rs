//! Handles for the two mesh file formats, and the data shaping their
//! loaders perform.
//!
//! A handler names the file a mesh is loaded from.  Reading the file and
//! turning coordinate text into scalars happen outside this crate; what is
//! verified here is the shaping of the parsed data: interleaving positions
//! and normals into the flat vertex stream the GPU buffers take, and
//! widening the 16-bit indices an OBJ parse yields to the 32-bit indices a
//! draw call takes.

use vstd::prelude::*;

verus! {

/// Handle for a mesh stored in an OFF file.
#[derive(Clone, Debug)]
pub struct MeshHandlerOFF {
    /// The file the mesh is loaded from.
    pub filename: String,
}

impl MeshHandlerOFF {
    /// Describe a handler for the given file.
    pub fn new(filename: &str) -> (h: Self)
        ensures
            h.filename@ == filename@,
    {
        MeshHandlerOFF { filename: filename.to_owned() }
    }

    /// The name of the format the handler reads.
    pub fn get_name() -> (r: &'static str)
        ensures
            r@ == "OFF"@,
    {
        "OFF"
    }
}

/// Handle for a mesh stored in an OBJ file.
#[derive(Clone, Debug)]
pub struct MeshHandlerOBJ {
    /// The file the mesh is loaded from.
    pub filename: String,
}

impl MeshHandlerOBJ {
    /// Describe a handler for the given file.
    pub fn new(filename: &str) -> (h: Self)
        ensures
            h.filename@ == filename@,
    {
        MeshHandlerOBJ { filename: filename.to_owned() }
    }

    /// The name of the format the handler reads.
    pub fn get_name() -> (r: &'static str)
        ensures
            r@ == "OBJ"@,
    {
        "OBJ"
    }
}

/// The scalar that belongs at position `k` of the interleaved vertex
/// stream: six scalars per vertex, its three position coordinates followed
/// by its three normal coordinates.
pub open spec fn spec_interleaved<U>(positions: Seq<[U; 3]>, normals: Seq<[U; 3]>, k: int) -> U {
    let v = k / 6;
    let c = k % 6;
    if c < 3 {
        positions[v]@[c]
    } else {
        normals[v]@[c - 3]
    }
}

/// Interleave per-vertex positions and normals into one flat stream, six
/// scalars per vertex: the position first, the normal after it.
pub fn interleave_vertex_data<U: Copy>(positions: &Vec<[U; 3]>, normals: &Vec<[U; 3]>) -> (r: Vec<
    U,
>)
    requires
        positions@.len() == normals@.len(),
        positions@.len() * 6 <= usize::MAX,
    ensures
        r@.len() == 6 * positions@.len(),
        forall|k: int| 0 <= k < r@.len() ==> #[trigger] r@[k] == spec_interleaved(
            positions@,
            normals@,
            k,
        ),
{
    let mut r: Vec<U> = Vec::new();
    let mut i: usize = 0;
    while i < positions.len()
        invariant
            i <= positions@.len(),
            positions@.len() == normals@.len(),
            positions@.len() * 6 <= usize::MAX,
            r@.len() == 6 * i,
            forall|k: int| 0 <= k < r@.len() ==> #[trigger] r@[k] == spec_interleaved(
                positions@,
                normals@,
                k,
            ),
        decreases positions@.len() - i,
    {
        let p = positions[i];
        let n = normals[i];
        r.push(p[0]);
        r.push(p[1]);
        r.push(p[2]);
        r.push(n[0]);
        r.push(n[1]);
        r.push(n[2]);
        proof {
            assert forall|k: int| 6 * i <= k < 6 * i + 6 implies r@[k] == spec_interleaved(
                positions@,
                normals@,
                k,
            ) by {
                assert(k / 6 == i && k % 6 == k - 6 * i) by (nonlinear_arith)
                    requires
                        6 * i <= k < 6 * i + 6,
                        i >= 0,
                ;
            }
        }
        i = i + 1;
    }
    r
}

/// Widen the 16-bit vertex indices an OBJ parse yields to the 32-bit
/// indices a draw call takes, value for value.
pub fn widen_indices(indices: &Vec<u16>) -> (r: Vec<u32>)
    ensures
        r@.len() == indices@.len(),
        forall|k: int| 0 <= k < r@.len() ==> #[trigger] r@[k] == indices@[k] as u32,
{
    let mut r: Vec<u32> = Vec::new();
    let mut i: usize = 0;
    while i < indices.len()
        invariant
            i <= indices@.len(),
            r@.len() == i,
            forall|k: int| 0 <= k < r@.len() ==> #[trigger] r@[k] == indices@[k] as u32,
        decreases indices@.len() - i,
    {
        r.push(indices[i] as u32);
        i = i + 1;
    }
    r
}

} // verus!
