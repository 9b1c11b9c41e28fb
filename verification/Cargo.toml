[package]
name = "vibevj"
version = "0.1.0"
edition = "2021"
publish = false

[dependencies]
glam = "*"
bytemuck = "*"
serde_json = "*"
serde = { version = "*", features = ["derive"] }
egui = "*"
egui-wgpu = "*"
egui-winit = "*"
pollster = "*"
log = "*"
env_logger = "*"
thiserror = "*"
rhai = "*"
rustfft = "*"
