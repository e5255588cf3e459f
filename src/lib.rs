//! Geometry data for game assets: bounding volumes, smooth normals and tangent frames,
//! computed with [glam](https://crates.io/crates/glam) vectors.
pub use glam;

pub mod bounding;
pub mod vecops;
pub mod vectors;
