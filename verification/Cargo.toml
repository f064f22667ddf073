[package]
name = "pose_detector"
version = "0.1.0"
edition = "2021"
publish = false

[dependencies]
anyhow = "*"
nalgebra = "*"
opencv = "*"
serde = { version = "*", features = ["derive"] }
serde_yaml = "*"
