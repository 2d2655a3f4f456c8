[package]
name = "translate_supervisor"
version = "0.1.0"
edition = "2021"
publish = false

[dependencies]
anyhow = "1"
arboard = { version = "3", default-features = false }
serde = { version = "1", features = ["derive"] }
serde_json = "1"
tauri = { version = "2", default-features = false }
tauri-plugin-global-shortcut = "2"
tokio = { version = "1", features = ["io-util", "process", "rt", "sync", "time"] }
