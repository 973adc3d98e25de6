[package]
name = "triangle_renderer"
version = "0.1.0"
edition = "2021"
publish = false

[dependencies]
bytemuck = "1"
env_logger = "0.9"
wgpu = "0.13"
winit = "0.26"
