//! The renderers.

pub mod raytrace;
