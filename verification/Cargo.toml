[package]
name = "wgpu_backend"
version = "0.1.0"
edition = "2021"
publish = false

[dependencies]
bytemuck = "1"
wgpu = "24"
pollster = "0.4"
cxx = "1"
