[package]
name = "ranking_client"
version = "0.1.0"
edition = "2021"
publish = false

[dependencies]
chrono = { version = "0.4", default-features = false, features = ["std"] }
combinations = "=0.1.0"
egui = "=0.27.2"
ehttp = "=0.5.0"
poll-promise = "=0.3.0"
serde = { version = "1", features = ["derive"] }
serde_json = "1"
