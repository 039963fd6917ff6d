[package]
name = "vulkan_rs"
version = "0.1.0"
edition = "2021"
publish = false

[dependencies]
anyhow = "1"
ash = "0.37"
ash-window = "0.12"
raw-window-handle = "0.5"
gpu-allocator = { version = "0.22", default-features = false, features = ["vulkan"] }
vk-mem = "0.3"
shaderc = "0.8"
enumset = "1"
log = "0.4"
memoffset = "0.9"
profiling = "1"
serde = { version = "1", features = ["derive"] }
