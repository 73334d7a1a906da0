[package]
name = "letras3d"
version = "0.1.0"
edition = "2021"
publish = false

[dependencies]
bytemuck = { version = "1", features = ["derive"] }
egui = "0.16"
egui_wgpu_backend = "0.16"
egui_winit_platform = "0.13"
env_logger = "0.9"
nalgebra = "0.30"
pollster = "0.2"
wgpu = "0.12"
winit = "0.26"
