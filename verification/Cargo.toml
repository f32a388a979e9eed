[package]
name = "gardum"
version = "0.1.0"
edition = "2021"
publish = false

[dependencies]
bevy = { version = "0.7", default-features = false }
bevy_renet = "0.0.3"
clap = { version = "3", features = ["derive"] }
rmp-serde = "1"
serde = { version = "1", features = ["derive"] }
serde_json = "1"
standard_paths = "*"
