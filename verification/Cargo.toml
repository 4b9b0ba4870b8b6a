[package]
name = "pet2d"
version = "0.1.0"
edition = "2021"
publish = false

[dependencies]
winit = "0.30"
wgpu = "24"
glam = "0.29"
image = { version = "0.25", default-features = false, features = ["png", "jpeg"] }
thiserror = "2"
bytemuck = { version = "1", features = ["derive"] }
raw-window-handle = "0.6"
