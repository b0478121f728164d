[package]
name = "central"
version = "0.1.0"
edition = "2021"
publish = false

[dependencies]
base64 = "=0.22.1"
dirs = "=5.0.1"
git2 = { version = "=0.19.0", default-features = false }
portable-pty = "=0.8.1"
serde = { version = "=1.0.229", features = ["derive"] }
serde_json = { version = "=1.0.154", features = ["preserve_order"] }
tauri = { version = "2", default-features = false }
