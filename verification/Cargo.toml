[package]
name = "gltf_engine"
version = "0.1.0"
edition = "2021"
publish = false

[dependencies]
uuid = { version = "1", features = ["v4"] }
gltf = "1.0"
cgmath = "0.18"
wgpu = "0.14"
bytemuck = { version = "1", features = ["derive"] }
image = { version = "0.24", default-features = false, features = ["png", "jpeg"] }
instant = "0.1"
log = "0.4"
pollster = "0.2"
eframe = { version = "0.20", default-features = false, features = ["wgpu"] }
egui = "0.20"
egui-wgpu = "0.20"
tracing-subscriber = "0.3"
