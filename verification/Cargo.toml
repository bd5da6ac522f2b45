[package]
name = "noise_cancellation"
version = "0.1.0"
edition = "2021"
publish = false

[dependencies]
anyhow = "1"
cpal = "0.18"
crossbeam-channel = "0.5"
eframe = { version = "0.37", default-features = false, features = ["glow", "x11", "default_fonts"] }
egui = { version = "0.37", default-features = false }
serde = { version = "1", features = ["derive"] }
serde_json = "1"
tracing = "0.1"
tracing-subscriber = "0.3"
