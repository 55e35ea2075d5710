[package]
name = "epitech_api"
version = "0.1.0"
edition = "2021"
publish = false

[dependencies]
chrono = "0.4"
enum-iterator = "0.7"
reqwest = "0.11"
serde = { version = "1", features = ["derive"] }
serde_json = "1"
thiserror = "1"
