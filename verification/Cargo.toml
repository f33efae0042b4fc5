[package]
name = "vvtv_core"
version = "0.1.0"
edition = "2021"
publish = false

[dependencies]
base64 = "=0.22.1"
chrono = { version = "=0.4.45", default-features = false, features = ["std", "clock"] }
hex = "=0.4.3"
hmac = "=0.12.1"
rand = "=0.8.8"
regex = "=1.13.1"
rusqlite = { version = "=0.31.0", features = ["bundled"] }
serde = { version = "=1.0.229", features = ["derive"] }
serde_json = "=1.0.154"
serde_yaml = "=0.9.34"
sha2 = "=0.10.9"
thiserror = "=1.0.69"
toml = "=0.8.23"
url = "2"
uuid = { version = "1", features = ["v4"] }
walkdir = "=2.5.0"
