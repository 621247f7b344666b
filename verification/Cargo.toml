[package]
name = "db_manager"
version = "0.1.0"
edition = "2021"
publish = false

[dependencies]
chrono = { version = "0.4", features = ["serde"] }
mongodb = { version = "2", features = ["tokio-sync"] }
once_cell = "1"
serde = { version = "1", features = ["derive"] }
serde_json = "1"
