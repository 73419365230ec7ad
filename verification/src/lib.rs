//! Core of a real-time agent-navigation pipeline.
//!
//! The library turns a voxelized walkable-surface mesh into a navigation mesh
//! graph, validates it before it may be attached to an island, and drives the
//! per-frame agent state: target assignment from pointer input, manual-override
//! clearing on movement keys, velocity refresh and position integration.
//!
//! All coordinates are exact fixed-point integers in an application-chosen
//! fine unit (for example milliunits), so every transform and integration step
//! is an exact affine computation. The host engine converts between its own
//! floating-point vectors and these fixed-point values at the boundary.

pub mod vec3;
pub mod voxel;
pub mod navmesh;
pub mod bridge;
pub mod agent;
pub mod debug;
