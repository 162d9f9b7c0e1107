[package]
name = "neat_ai_discovery"
version = "0.1.0"
edition = "2021"
publish = false

[dependencies]
rand = "=0.8.8"
serde = { version = "=1.0.229", features = ["derive"] }
anyhow = "=1.0.104"
wgpu = "0.20"
pollster = "0.3"
