//! Decision core of a deferred voxel renderer.
//!
//! Everything here is plain data: resource descriptors, uniform block
//! contents, the command sequences of the two render passes and the scene
//! upload protocol. A host executes these plans on a GPU.

pub mod error;
pub mod frame;
pub mod geometry;
pub mod layout;
pub mod renderer;
pub mod scene;
pub mod targets;
pub mod uniforms;
