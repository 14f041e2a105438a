[package]
name = "serde_datastore"
version = "0.1.0"
edition = "2021"
publish = false

[dependencies]
base64 = "0.13"
chrono = { version = "0.4", default-features = false, features = ["std", "serde"] }
serde = { version = "1", features = ["derive"] }

[dev-dependencies]
serde_json = "1"
serde_bytes = "0.11"
