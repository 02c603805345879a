pub mod slib;
pub mod exm;
pub mod generate;
pub mod render;
pub mod vertices;

use vstd::prelude::*;

verus! {

/// Side length of the voxel chunk of the chained shaders, in voxels.
pub const CHUNK_SIZE: u32 = 32;

} // verus!
