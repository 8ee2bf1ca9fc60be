[package]
name = "focusflow"
version = "0.1.0"
edition = "2021"
publish = false

[dependencies]
chrono = { version = "0.4", default-features = false, features = ["clock"] }
notify = "*"
serde = { version = "1", features = ["derive"] }
serde_json = "1"
sys-locale = "*"
tauri = { version = "2", default-features = false }
