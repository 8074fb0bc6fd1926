//! Scene composition for a small molecular viewer: immutable mesh templates
//! with checked index lists, molecules that place atoms on shared meshes by
//! handle, and the per-frame order in which a molecule is drawn.

pub mod mesh;
pub mod molecule;
pub mod frame;
pub mod session;
