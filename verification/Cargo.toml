[package]
name = "urbit_http_api"
version = "0.1.0"
edition = "2021"
publish = false

[dependencies]
chrono = "0.4"
futures = "0.3"
rand = "0.8"
reqwest = { version = "0.12", default-features = false, features = ["cookies", "json", "stream"] }
serde = { version = "1", features = ["derive"] }
serde_json = "1"
thiserror = "1"
tokio = { version = "1", features = ["sync", "rt", "time", "macros"] }
tokio-util = { version = "0.7", features = ["codec", "io"] }
