[package]
name = "client"
version = "0.1.0"
edition = "2021"
publish = false

[dependencies]
bincode = "2"
bytemuck = { version = "1", features = ["derive"] }
pollster = "*"
rand = "0.9"
renet = "1"
renet_netcode = "1"
serde = { version = "1", features = ["derive"] }
serde_json = "1"
tracing = "0.1"
tracing-subscriber = { version = "0.3", features = ["env-filter"] }
winit = "0.30"
