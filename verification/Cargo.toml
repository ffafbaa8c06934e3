[package]
name = "rebar"
version = "0.1.0"
edition = "2021"
publish = false

[dependencies]
chrono = "0.4"
serde_json = "1"
eframe = { version = "0.31", default-features = false, features = ["default_fonts", "glow", "x11"] }
windows-sys = { version = "0.59", features = ["Win32_System_Threading"] }
