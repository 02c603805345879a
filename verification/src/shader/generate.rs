//! The images of the chained voxel shaders: a two-dimensional slice of the chunk and the
//! three-dimensional chunk itself, as byte counts of their zeroed data.
use vstd::prelude::*;
use crate::shader::CHUNK_SIZE;

verus! {

/// Bytes of one layer of the chunk, `CHUNK_SIZE^2` texels, given the texel size of the
/// image format (none for formats without a copy block size, which gives no bytes).
pub open spec fn layer_bytes(block_size: Option<u32>) -> int {
    CHUNK_SIZE * CHUNK_SIZE * match block_size {
        Some(b) => b as int,
        None => 0,
    }
}

/// Bytes of the two-dimensional slice image.
pub fn slice_image_len(block_size: Option<u32>) -> (len: usize)
    requires
        layer_bytes(block_size) * CHUNK_SIZE <= usize::MAX,
    ensures
        len == layer_bytes(block_size),
{
    let block = match block_size {
        Some(b) => b as usize,
        None => 0,
    };
    assert(CHUNK_SIZE * CHUNK_SIZE * block <= CHUNK_SIZE * CHUNK_SIZE * block * CHUNK_SIZE)
        by (nonlinear_arith)
        requires
            0 <= block,
    ;
    CHUNK_SIZE as usize * CHUNK_SIZE as usize * block
}

/// Bytes of the three-dimensional voxel image: `CHUNK_SIZE` layers.
pub fn voxel_image_len(block_size: Option<u32>) -> (len: usize)
    requires
        layer_bytes(block_size) * CHUNK_SIZE <= usize::MAX,
    ensures
        len == layer_bytes(block_size) * CHUNK_SIZE,
{
    slice_image_len(block_size) * CHUNK_SIZE as usize
}

} // verus!
