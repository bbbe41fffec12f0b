[package]
name = "viewer_core"
version = "0.1.0"
edition = "2021"
publish = false

[dependencies]
bytemuck = { version = "=1.25.2", features = ["derive"] }
glam = { version = "=0.30.10", features = ["bytemuck"] }
log = "=0.4.34"
wgpu = "=30.0.1"
winit = "=0.30.13"
winit_input_helper = "=0.17.0"
