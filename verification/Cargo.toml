[package]
name = "scene_renderer"
version = "0.1.0"
edition = "2021"
publish = false

[dependencies]
bytemuck = { version = "=1.25.2", features = ["derive"] }
cgmath = "=0.18.0"
env_logger = "=0.9.3"
log = "=0.4.34"
pollster = "=0.2.5"
wgpu = { version = "=0.13.1", features = ["spirv"] }
winit = "=0.26.1"
