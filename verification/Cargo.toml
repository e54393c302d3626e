[package]
name = "tokimo_media_server_bridge"
version = "0.1.0"
edition = "2021"
publish = false

[dependencies]
argon2 = "=0.6.0"
axum = "=0.8.9"
chrono = { version = "=0.4.45", default-features = false, features = ["clock", "std"] }
http-body-util = "=0.1.5"
sea-orm = { version = "=2.0.4", default-features = false, features = ["with-json", "with-chrono", "with-uuid"] }
serde = { version = "=1.0.229", features = ["derive"] }
serde_json = "=1.0.154"
tracing = "=0.1.44"
urlencoding = "=2.1.3"
uuid = { version = "=1.29.0", features = ["v4"] }
