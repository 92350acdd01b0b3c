[package]
name = "textware"
version = "0.1.0"
edition = "2021"
publish = false

[dependencies]
cosmic-text = "*"
wgpu = { version = "*", default-features = false }
bytemuck = { version = "*", features = ["derive"] }
