[package]
name = "twitar"
version = "0.1.0"
edition = "2021"
publish = false

[dependencies]
base64 = "=0.13.1"
derive_more = "=0.99.20"
hmac = "=0.12.1"
http = "=0.2.12"
hyper = { version = "=0.14.32", features = ["client", "http1", "server", "tcp"] }
redis = { version = "=0.22.4", features = ["tokio-comp"] }
secrecy = "=0.8.0"
serde = { version = "=1.0.229", features = ["derive"] }
serde_json = "=1.0.154"
sha1 = "=0.10.7"
tokio = { version = "=1.54.1", features = ["time"] }
urlencoding = "=2.1.3"
uuid = { version = "=1.29.0", features = ["v4"] }
