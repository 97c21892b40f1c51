[package]
name = "triangle_panel"
version = "0.1.0"
edition = "2021"
publish = false

[dependencies]
eframe = { version = "0.24", default-features = false, features = ["glow", "x11"] }
egui = { version = "0.24", default-features = false }
env_logger = { version = "0.10", default-features = false }
