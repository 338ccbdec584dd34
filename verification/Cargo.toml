[package]
name = "simplenote"
version = "0.1.0"
edition = "2021"
publish = false

[dependencies]
chrono = { version = "=0.4.45", features = ["serde"] }
uuid = { version = "=1.29.0", features = ["v4"] }
serde = { version = "=1.0.229", features = ["derive"] }
serde_json = "=1.0.154"
egui = "=0.29.1"
eframe = { version = "=0.29.1", default-features = false, features = ["glow", "x11", "default_fonts"] }
