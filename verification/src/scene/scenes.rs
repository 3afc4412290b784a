//! The kinds of scene.

pub mod brdf_params;
pub mod description;
pub mod lights;
pub mod mesh;
pub mod mesh_requests;
pub mod objects;
pub mod procedural;
pub mod shaders;
