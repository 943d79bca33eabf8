[package]
name = "pedidos"
version = "0.1.0"
edition = "2021"
publish = false

[dependencies]
chrono = "0.4"
serde = { version = "1", features = ["derive"] }
serde_json = "1"
reqwest = { version = "0.11", default-features = false, features = ["json"] }
rocket = { version = "0.5", features = ["json"] }
tokio = { version = "1", features = ["sync", "rt", "time", "macros"] }
tokio-postgres = "0.7"
postgres-from-row = "0.5"
