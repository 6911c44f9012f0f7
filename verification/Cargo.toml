[package]
name = "lumina_core"
version = "0.1.0"
edition = "2021"
publish = false

[dependencies]
anyhow = "1"
bytemuck = { version = "1", features = ["derive"] }
image = { version = "0.25", default-features = false, features = ["png", "jpeg"] }
pollster = "0.3"
serde = { version = "1", features = ["derive"] }
serde_json = "1"
wgpu = "0.20"
