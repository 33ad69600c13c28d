[package]
name = "moshya_viewer"
version = "0.1.0"
edition = "2021"
publish = false

[dependencies]
egui = "0.29"
eframe = { version = "0.29", default-features = false, features = ["default_fonts", "glow", "x11"] }
egui_extras = { version = "0.29", features = ["file", "image"] }
image = { version = "0.25", default-features = false, features = ["bmp", "jpeg", "png", "webp"] }
rfd = "0.15"
