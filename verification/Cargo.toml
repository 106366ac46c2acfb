[package]
name = "cyclone"
version = "0.1.0"
edition = "2021"
publish = false

[dependencies]
axum = { version = "=0.8.9", features = ["ws"] }
chrono = { version = "=0.4.45", default-features = false, features = ["clock"] }
futures = "=0.3.34"
serde_json = { version = "=1.0.154", features = ["preserve_order"] }
thiserror = "=2.0.21"
tokio = { version = "=1.54.1", features = ["io-util", "macros", "net", "process", "rt", "time"] }
