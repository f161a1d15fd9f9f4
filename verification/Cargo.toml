[package]
name = "visualiser"
version = "0.1.0"
edition = "2021"

[dependencies]
wgpu = "*"
winit = "*"
rodio = "*"
clap = { version = "*", features = ["derive"] }
chrono = "*"
futures = "*"
bytemuck = { version = "*", features = ["derive"] }
