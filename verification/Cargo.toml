[package]
name = "key_monitor"
version = "0.1.2"
edition = "2021"
publish = false

[dependencies]
log = "0.4"
env_logger = "0.11"
chrono = "0.4"
egui = "0.29"
eframe = { version = "0.29", default-features = false, features = ["glow", "default_fonts"] }
winapi = { version = "0.3", features = ["winuser"] }
