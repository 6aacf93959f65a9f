[package]
name = "codexola"
version = "0.1.0"
edition = "2021"
publish = false

[dependencies]
chrono = { version = "0.4", default-features = false, features = ["std"] }
git2 = { version = "*", default-features = false }
ignore = "0.4"
serde = { version = "1", features = ["derive"] }
serde_json = "1"
tauri = { version = "2", default-features = false }
tokio = { version = "1", features = ["io-util", "process", "sync", "time", "rt"] }
uuid = { version = "1", features = ["v4"] }
