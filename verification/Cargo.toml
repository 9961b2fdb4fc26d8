[package]
name = "mandelbrot_viewer"
version = "0.1.0"
edition = "2021"
publish = false

[dependencies]
bytemuck = { version = "*", features = ["derive"] }
egui = "*"
egui-wgpu = "*"
egui-winit = "*"
env_logger = "*"
log = "*"
pollster = "*"
wgpu = "*"
winit = "*"
