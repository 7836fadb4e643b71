[package]
name = "winget_interfacer"
version = "0.1.0"
edition = "2021"
publish = false

[dependencies]
eframe = { version = "0.33", default-features = false, features = ["glow", "default_fonts", "x11"] }
egui = "0.33"
open = "5"
poll-promise = "0.3"
serde = { version = "1", features = ["derive"] }
serde_json = "1"
