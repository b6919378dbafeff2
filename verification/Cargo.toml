[package]
name = "blinks"
version = "0.1.0"
edition = "2021"
publish = false

[dependencies]
axum = "0.7"
chrono = { version = "0.4", features = ["serde"] }
dashmap = "5"
deadpool-postgres = "0.14"
lazy_static = "1"
prometheus = { version = "0.13", default-features = false }
redis = { version = "0.27", features = ["tokio-comp", "connection-manager"] }
regex = "1"
reqwest = { version = "0.12", default-features = false, features = ["json"] }
serde = { version = "1", features = ["derive"] }
serde_json = "1"
soroban-sdk = "21"
tokio = { version = "1", features = ["sync", "rt-multi-thread", "macros", "net", "time"] }
tokio-postgres = { version = "0.7", features = ["with-uuid-1", "with-chrono-0_4"] }
tracing = "0.1"
uuid = { version = "1", features = ["v4", "serde"] }
