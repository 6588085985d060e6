[package]
name = "frameloop"
version = "0.1.0"
edition = "2021"
publish = false

[dependencies]
wgpu = "=0.17.2"
winit = "=0.28.7"
futures = "0.3"
bytemuck = "1"
