[package]
name = "toolbox_launcher"
version = "0.1.0"
edition = "2021"
publish = false

[dependencies]
eframe = { version = "0.30", default-features = false, features = ["glow", "x11"] }
egui = { version = "0.30", default-features = false }
winapi = { version = "0.3", features = ["shellapi", "winuser"] }
