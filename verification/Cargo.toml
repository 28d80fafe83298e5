[package]
name = "gltf_viewer"
version = "0.1.0"
edition = "2021"
publish = false

[dependencies]
bytemuck = { version = "*", features = ["derive"] }
cgmath = "*"
clap = { version = "*", features = ["derive"] }
env_logger = "*"
gltf = "*"
half = "*"
image = "*"
ktx2 = "*"
log = "*"
pollster = "*"
serde = { version = "*", features = ["derive"] }
tera = "*"
wgpu = "*"
winit = "*"
