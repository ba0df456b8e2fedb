//! Chunked voxel storage, face-culling mesh generation, grid picking and
//! voxel editing for a block world, with machine-checked contracts.
//!
//! The world is a set of chunks, cubes of 32³ voxels. A chunk that was
//! edited is dirty; the rebuild pass turns each dirty chunk and its six
//! neighbours into a mesh that holds one quad for every face of a solid
//! voxel that looks at air or at the edge of the loaded world. Picking
//! walks a ray through the grid to the first solid voxel, and a click on
//! that voxel places or removes a block.
//!
//! Everything here works on integers. Positions, normals and texture
//! coordinates of a mesh are grid values, and a ray is handed over as the
//! order in which it crosses grid planes; the engine around the library
//! turns them into and out of floating point.

pub mod blocks;
pub mod chunk;
pub mod collections;
pub mod coords;
pub mod culling_laws;
pub mod mesh;
pub mod meshers;
pub mod naive_mesher;
pub mod scheduler;
pub mod state;
pub mod voxel;
pub mod voxel_clicked;
pub mod voxel_picking;
pub mod world;
pub mod worldgen;
