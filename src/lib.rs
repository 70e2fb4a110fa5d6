//! Adaptive visibility and dispatch planning for a raymarched voxel diffusion field.

pub mod dispatch;
pub mod frame;
pub mod visibility;
pub mod voxel_grid;
