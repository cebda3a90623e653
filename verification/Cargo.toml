[package]
name = "volume_render"
version = "0.1.0"
edition = "2021"
publish = false

[dependencies]
bytemuck = { version = "1", features = ["derive"] }
wgpu = "0.13"
winit = "0.26"
