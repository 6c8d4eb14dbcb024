[package]
name = "rvi"
version = "0.1.0"
edition = "2021"
publish = false

[dependencies]
image = "0.24"
clap = { version = "3.2", features = ["derive"] }
winit = "0.27"
pixels = "0.10"
