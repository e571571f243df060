[package]
name = "galileo"
version = "0.1.0"
edition = "2021"
publish = false

[dependencies]
wgpu = "=24.0.5"
winit = "=0.30.13"
image = { version = "=0.25.10", default-features = false, features = ["png", "jpeg"] }
rustybuzz = "=0.20.1"
lyon = "=1.0.19"
galileo-types = "=0.2.1"
serde = { version = "=1.0.229", features = ["derive"] }
bytemuck = { version = "=1.25.2", features = ["derive"] }
thiserror = "=2.0.21"
web-time = "=1.1.0"
nalgebra = "=0.32.6"
