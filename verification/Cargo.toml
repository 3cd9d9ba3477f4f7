[package]
name = "content_browser"
version = "0.1.0"
edition = "2021"
publish = false

[dependencies]
meval = "0.2"
serde = { version = "1", features = ["derive"] }
chrono = "0.4"
egui = "0.24"
eframe = { version = "0.24", default-features = false, features = ["default_fonts", "glow", "persistence", "x11"] }
egui_commonmark = "0.10"
egui_extras = { version = "0.24", features = ["image"] }
