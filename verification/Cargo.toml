[package]
name = "oficialia_dsa"
version = "0.1.0"
edition = "2021"
publish = false

[dependencies]
chrono = { version = "=0.4.45", features = ["serde"] }
uuid = { version = "=1.29.0", features = ["v4"] }
serde = { version = "=1.0.229", features = ["derive"] }
serde_json = "=1.0.154"
thiserror = "=1.0.69"
log = "=0.4.35"
tokio = { version = "=1.54.1", features = ["sync", "rt", "rt-multi-thread", "fs", "macros"] }
reqwest = { version = "=0.12.28", features = ["json", "multipart"] }
sqlx = { version = "=0.8.6", default-features = false, features = ["runtime-tokio", "sqlite", "chrono", "macros"] }
image = { version = "=0.24.9", default-features = false, features = ["png"] }
tempfile = "=3.27.0"
lopdf = { version = "0.32", default-features = false }
