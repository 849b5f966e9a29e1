//! A bounded voxel world and its surface mesh.
//!
//! `terrain` holds the grid of blocks with its visible slice and its dirty
//! flag; `mesh` turns the grid into triangle buffers, one quad per exposed
//! unit face below the slice; `face` encodes a face's direction and material
//! into the packed vertex attribute; `slice` applies scroll input to the
//! slice; `culling` states and proves what the mesh contains.
use vstd::prelude::*;

pub mod block;
pub mod culling;
pub mod face;
pub mod mesh;
pub mod slice;
pub mod terrain;

verus! {

} // verus!
