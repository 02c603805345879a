//! The logic of a voxel terrain playground: marching cubes meshing, the chunks kept
//! around the player, loading steps, debug toggles, and the drivers of its compute
//! shaders.
pub mod marching_cube;
pub mod terrain_gen;
pub mod loading;
pub mod shader;
pub mod temp;
pub mod compute;
pub mod debug;
pub mod camera;
pub mod gen_voxels;
pub mod assets;
