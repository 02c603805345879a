//! The vertex generation shader: the size of its buffers and the check on its readback.
use vstd::prelude::*;
use crate::shader::CHUNK_SIZE;

verus! {

/// Length of each vertex buffer: room for eight triangles' worth of three entries per
/// voxel of the chunk.
pub fn vertex_buffer_len() -> (len: usize)
    ensures
        len == CHUNK_SIZE * CHUNK_SIZE * CHUNK_SIZE * 3 * 8,
{
    CHUNK_SIZE as usize * CHUNK_SIZE as usize * CHUNK_SIZE as usize * 3 * 8
}

/// The counters the vertex shader writes back: where the next index and the next vertex
/// go.
#[derive(Clone, Copy, Debug, PartialEq, Eq, Structural)]
pub struct VertexData {
    pub index_head: u32,
    pub vertex_head: u32,
}

impl VertexData {
    /// Both counters at zero.
    pub fn default() -> (d: Self)
        ensures
            d.index_head == 0,
            d.vertex_head == 0,
    {
        VertexData { index_head: 0, vertex_head: 0 }
    }

    /// Whether the shader has produced indices, after which the readback is no longer
    /// needed.
    pub fn has_indices(&self) -> (b: bool)
        ensures
            b == (self.index_head != 0),
    {
        self.index_head != 0
    }
}

} // verus!
