[package]
name = "qr_clipboard_preview"
version = "0.1.0"
edition = "2021"
publish = false

[dependencies]
qr_code = { version = "=2.0.0", features = ["bmp"] }
copypasta = "=0.10.2"
eframe = { version = "=0.32.3", default-features = false, features = ["glow", "default_fonts", "x11", "wayland"] }
egui_extras = "=0.32.3"
