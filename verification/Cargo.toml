[package]
name = "trips"
version = "0.1.0"
edition = "2021"

[dependencies]
bytemuck = "*"
futures = "*"
glam = "*"
gltf = "*"
wgpu = "*"
winit = "*"
