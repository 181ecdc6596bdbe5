[package]
name = "lightweight_charts_backend"
version = "0.1.0"
edition = "2021"
publish = false

[dependencies]
fastrand = "2"
axum = { version = "0.7", features = ["ws"] }
tokio = { version = "1", features = ["full"] }
tower-http = { version = "0.5", features = ["cors"] }
serde = { version = "1", features = ["derive"] }
serde_json = "1"
jsonwebtoken = "9"
parking_lot = "0.12"
dashmap = "5"
chrono = "0.4"
smallvec = "1"
prometheus = { version = "0.13", default-features = false }
lazy_static = "1"
reqwest = { version = "0.12", default-features = false, features = ["json"] }
rocksdb = { version = "0.22", default-features = false }
tokio-tungstenite = "0.21"
futures = "0.3"
url = "2"
tracing = "0.1"
tracing-subscriber = { version = "0.3", features = ["env-filter"] }
