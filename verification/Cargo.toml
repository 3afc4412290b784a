[package]
name = "kubgrupp"
version = "0.1.0"
edition = "2021"
publish = false

[dependencies]
anyhow = "1"
ash = "0.38"
ash-window = "0.13"
bytemuck = { version = "1", features = ["extern_crate_alloc"] }
env_logger = "0.11"
glam = { version = "0.29", features = ["bytemuck"] }
gpu-allocator = { version = "0.27", default-features = false, features = ["vulkan"] }
log = "0.4"
presser = "0.3"
rand = "0.8"
tobj = "4"
toml = "0.8"
winit = "0.30"
