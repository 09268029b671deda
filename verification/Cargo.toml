[package]
name = "codex_accounts"
version = "0.1.0"
edition = "2021"
publish = false

[dependencies]
base64 = "=0.23.1"
chrono = "=0.4.45"
dirs = "=7.0.0"
rand = "=0.10.3"
reqwest = { version = "=0.13.5", default-features = false, features = ["blocking", "form"] }
serde = { version = "=1.0.229", features = ["derive"] }
serde_json = "=1.0.151"
sha2 = "=0.11.0"
url = "=2.5.8"
uuid = { version = "=1.27.0", features = ["v4"] }
