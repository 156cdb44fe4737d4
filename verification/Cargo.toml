[package]
name = "name_history"
version = "0.1.0"
edition = "2021"
publish = false

[dependencies]
base64 = "0.13"
headers = "0.3"
hyper = { version = "0.14", features = ["full"] }
hyper-proxy = "0.9"
hyper-tls = "0.5"
serde = { version = "1", features = ["derive"] }
serde_json = "1"
sqlx = { version = "0.6", default-features = false, features = ["sqlite", "runtime-tokio-native-tls"] }
tokio = { version = "1", features = ["full"] }
tracing = "0.1"
tracing-subscriber = "0.3"
uuid = { version = "1", features = ["serde"] }
warp = { version = "0.3", default-features = false }
