[package]
name = "shader_playground"
version = "0.1.0"
edition = "2021"
publish = false

[dependencies]
wgpu = "25"
winit = "0.30"
egui = "0.32"
egui-wgpu = "0.32"
egui-winit = { version = "0.32", default-features = false, features = ["clipboard", "links", "wayland", "x11"] }
egui_extras = "0.32"
pollster = "0.4"
env_logger = "0.11"
log = "0.4"
bytemuck = { version = "1", features = ["derive"] }
