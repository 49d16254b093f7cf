[package]
name = "hello_triangle"
version = "0.1.0"
edition = "2021"
publish = false

[dependencies]
wgpu = "0.14"
winit = "0.27"
bytemuck = { version = "1", features = ["derive"] }
env_logger = "0.9"
