//! What the ray-tracing renderer decides and lays out before it calls the
//! device.

pub mod accel;
pub mod descriptor;
pub mod ingest;
pub mod light_buffer;
pub mod pipeline;
pub mod push_constants;
pub mod renderers;
pub mod sbt;
pub mod teardown;
pub mod vertex_data;
pub mod words;
