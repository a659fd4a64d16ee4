//! Iso-surface extraction for voxel terrain: a chunk's lattice of density and color
//! samples is walked cube by cube with the marching-cubes tables, and the surface it
//! crosses is batched into meshlets, each with its own indirect draw command.

pub mod batch;
pub mod cube;
pub mod lattice;
pub mod layout;
pub mod noise;
pub mod sample;
pub mod tables;
