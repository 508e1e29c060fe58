[package]
name = "blub"
version = "0.1.0"
edition = "2021"
publish = false

[dependencies]
bytemuck = "1"
cgmath = "0.18"
egui = { version = "*", default-features = false, features = ["default_fonts"] }
egui-wgpu = { version = "*", default-features = false }
egui-winit = { version = "*", default-features = false }
env_logger = { version = "0.11", default-features = false }
futures = { version = "0.3", default-features = false, features = ["executor"] }
image = { version = "0.25", default-features = false, features = ["hdr"] }
log = "0.4"
serde = { version = "1", features = ["derive"] }
serde_json = "1"
wgpu = { version = "*", default-features = false, features = ["vulkan", "wgsl"] }
wgpu-profiler = { version = "*", default-features = false }
winit = { version = "0.30", default-features = false, features = ["rwh_06", "x11"] }
