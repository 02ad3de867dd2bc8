//! Mesh data as the upload path consumes it: a vertex count and an
//! index list whose every entry names a real vertex. Vertex positions
//! themselves are the caller's concern.

use vstd::prelude::*;

verus! {

/// An indexed mesh: how many vertices it has, and the triangle list
/// over them.
#[derive(Debug)]
pub struct MeshData {
    pub vertex_count: usize,
    pub indices: Vec<u32>,
}

impl MeshData {
    /// Every index names one of the mesh's vertices.
    pub open spec fn wf(&self) -> bool {
        forall|i: int| 0 <= i < self.indices@.len() ==> (#[trigger] self.indices@[i] as int)
            < self.vertex_count
    }
}

/// The four little-endian bytes of one index.
pub open spec fn u32_le_bytes(x: u32) -> Seq<u8> {
    seq![
        (x % 256) as u8,
        ((x / 256) % 256) as u8,
        ((x / 65536) % 256) as u8,
        ((x / 16777216) % 256) as u8,
    ]
}

/// Serialize an index list to the little-endian bytes the upload path
/// carries: four bytes per index, in order.
#[verifier::loop_isolation(false)]
pub fn indices_to_bytes(indices: &Vec<u32>) -> (b: Vec<u8>)
    requires
        indices@.len() * 4 <= usize::MAX,
    ensures
        b@.len() == 4 * indices@.len(),
        forall|i: int|
            0 <= i < indices@.len() ==> b@.subrange(4 * i, 4 * i + 4) == u32_le_bytes(
                #[trigger] indices@[i],
            ),
{
    let mut b: Vec<u8> = Vec::new();
    let mut i: usize = 0;
    while i < indices.len()
        invariant
            i <= indices@.len(),
            b@.len() == 4 * i,
            forall|j: int|
                0 <= j < i ==> b@.subrange(4 * j, 4 * j + 4) == u32_le_bytes(
                    #[trigger] indices@[j],
                ),
        decreases indices@.len() - i,
    {
        let x = indices[i];
        let ghost old_b = b@;
        b.push((x % 256) as u8);
        b.push(((x / 256) % 256) as u8);
        b.push(((x / 65536) % 256) as u8);
        b.push(((x / 16777216) % 256) as u8);
        proof {
            assert forall|j: int|
                0 <= j < i + 1 implies b@.subrange(4 * j, 4 * j + 4) == u32_le_bytes(
                #[trigger] indices@[j],
            ) by {
                if j < i {
                    assert(b@.subrange(4 * j, 4 * j + 4) =~= old_b.subrange(4 * j, 4 * j + 4));
                } else {
                    assert(b@.subrange(4 * j, 4 * j + 4) =~= u32_le_bytes(indices@[j]));
                }
            }
        }
        i = i + 1;
    }
    b
}

/// The first test object: a quad of four vertices drawn as two
/// triangles.
pub fn get_object1() -> (m: MeshData)
    ensures
        m.wf(),
        m.vertex_count == 4,
        m.indices@ == seq![0u32, 2u32, 1u32, 2u32, 3u32, 1u32],
{
    let indices: Vec<u32> = vec![0, 2, 1, 2, 3, 1];
    proof {
        assert(indices@ =~= seq![0u32, 2u32, 1u32, 2u32, 3u32, 1u32]);
    }
    MeshData { vertex_count: 4, indices }
}

} // verus!
