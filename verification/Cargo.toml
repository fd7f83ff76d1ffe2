[package]
name = "bijou"
version = "0.1.0"
edition = "2021"
publish = false

[dependencies]
csv = "1"
serde = { version = "1", features = ["derive"] }
eframe = "0.18"
egui_extras = "0.18"
rfd = "0.10"
preferences = "1"
