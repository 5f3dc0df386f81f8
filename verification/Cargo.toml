[package]
name = "flutter_embedder"
version = "0.1.0"
edition = "2021"
publish = false

[dependencies]
arboard = "*"
wgpu = "*"
winit = "*"
log = "*"
env_logger = "*"
clap = { version = "*", features = ["derive"] }
serde = { version = "*", features = ["derive"] }
serde_json = "*"
tokio = { version = "*", features = ["rt-multi-thread"] }
