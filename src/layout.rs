use vstd::prelude::*;

use crate::batch::EdgeMesh;

verus! {

/// Lengths of the buffers handed to the host, in elements: floats for vertices and
/// normals (four per vertex), 32-bit words for the rest (four per draw command).
#[derive(Clone, Copy, Debug, PartialEq, Eq, Structural)]
pub struct MeshMetadata {
    pub vertices_length: usize,
    pub normals_length: usize,
    pub colors_length: usize,
    pub material_colors_length: usize,
    pub commands_length: usize,
    pub densities_length: usize,
    pub vertex_counts_length: usize,
    /// Draws are not indexed: no index buffer is produced.
    pub indices_length: usize,
}

/// Sizes in bytes of the buffers handed to the host.
#[derive(Clone, Copy, Debug, PartialEq, Eq, Structural)]
pub struct BufferSizes {
    pub vertices_bytes: usize,
    pub normals_bytes: usize,
    pub colors_bytes: usize,
    pub material_colors_bytes: usize,
    pub commands_bytes: usize,
    pub densities_bytes: usize,
    pub vertex_counts_bytes: usize,
    pub indices_bytes: usize,
}

/// Four times `n`, where that fits in `usize`.
fn times_four(n: usize) -> (r: Option<usize>)
    ensures
        r is Some <==> 4 * n <= usize::MAX,
        r matches Some(v) ==> v == 4 * n,
{
    if n > usize::MAX / 4 {
        None
    } else {
        Some(4 * n)
    }
}

impl EdgeMesh {
    /// Buffer lengths of the mesh as the host sees it: each vertex as four floats of
    /// position and four of normal, one color word each in two color buffers, and
    /// each draw command as four words. `None` where a length does not fit in `usize`.
    pub fn metadata(&self) -> (r: Option<MeshMetadata>)
        ensures
            r is Some <==> 4 * self.vertices@.len() <= usize::MAX && 4 * self.commands@.len()
                <= usize::MAX,
            r matches Some(md) ==> md == (MeshMetadata {
                vertices_length: (4 * self.vertices@.len()) as usize,
                normals_length: (4 * self.vertices@.len()) as usize,
                colors_length: self.colors@.len() as usize,
                material_colors_length: self.material_colors@.len() as usize,
                commands_length: (4 * self.commands@.len()) as usize,
                densities_length: self.densities@.len() as usize,
                vertex_counts_length: self.vertex_counts@.len() as usize,
                indices_length: 0,
            }),
    {
        let vertices_length = times_four(self.vertices.len())?;
        let commands_length = times_four(self.commands.len())?;
        Some(
            MeshMetadata {
                vertices_length,
                normals_length: vertices_length,
                colors_length: self.colors.len(),
                material_colors_length: self.material_colors.len(),
                commands_length,
                densities_length: self.densities.len(),
                vertex_counts_length: self.vertex_counts.len(),
                indices_length: 0,
            },
        )
    }
}

impl MeshMetadata {
    /// Byte sizes of the buffers: every element is four bytes wide. `None` where a
    /// size does not fit in `usize`.
    pub fn buffer_sizes(&self) -> (r: Option<BufferSizes>)
        ensures
            r is Some <==> {
                &&& 4 * self.vertices_length <= usize::MAX
                &&& 4 * self.normals_length <= usize::MAX
                &&& 4 * self.colors_length <= usize::MAX
                &&& 4 * self.material_colors_length <= usize::MAX
                &&& 4 * self.commands_length <= usize::MAX
                &&& 4 * self.densities_length <= usize::MAX
                &&& 4 * self.vertex_counts_length <= usize::MAX
                &&& 4 * self.indices_length <= usize::MAX
            },
            r matches Some(b) ==> {
                &&& b.vertices_bytes == 4 * self.vertices_length
                &&& b.normals_bytes == 4 * self.normals_length
                &&& b.colors_bytes == 4 * self.colors_length
                &&& b.material_colors_bytes == 4 * self.material_colors_length
                &&& b.commands_bytes == 4 * self.commands_length
                &&& b.densities_bytes == 4 * self.densities_length
                &&& b.vertex_counts_bytes == 4 * self.vertex_counts_length
                &&& b.indices_bytes == 4 * self.indices_length
            },
    {
        Some(
            BufferSizes {
                vertices_bytes: times_four(self.vertices_length)?,
                normals_bytes: times_four(self.normals_length)?,
                colors_bytes: times_four(self.colors_length)?,
                material_colors_bytes: times_four(self.material_colors_length)?,
                commands_bytes: times_four(self.commands_length)?,
                densities_bytes: times_four(self.densities_length)?,
                vertex_counts_bytes: times_four(self.vertex_counts_length)?,
                indices_bytes: times_four(self.indices_length)?,
            },
        )
    }
}

} // verus!
