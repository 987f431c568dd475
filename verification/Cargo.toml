[package]
name = "render_lifecycle"
version = "0.1.0"
edition = "2021"
publish = false

[dependencies]
bytemuck = "=1.25.2"
notify = "6"
pollster = "=0.3.0"
wgpu = "=0.15.1"
