[package]
name = "midjourney_prompt"
version = "0.1.0"
edition = "2021"
publish = false

[dependencies]
clipboard = "0.5"
dirs = "4"
eframe = { version = "0.20", default-features = false, features = ["default_fonts", "glow"] }
serde = { version = "1", features = ["derive"] }
serde_yaml = "0.8"
