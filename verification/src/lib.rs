//! Verified core of a hardware ray-tracing renderer: table layouts, buffer
//! packing and the frame-resource state machine, with the device calls left
//! to the caller.

pub mod camera;
pub mod device;
pub mod features;
pub mod render;
pub mod scene;
pub mod utils;
pub mod window;
