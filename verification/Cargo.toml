[package]
name = "egui_dock"
version = "0.1.0"
edition = "2021"
publish = false

[dependencies]
egui = { version = "0.32", default-features = false }
uuid = { version = "1", features = ["v4"] }
serde = { version = "1", features = ["derive"] }
