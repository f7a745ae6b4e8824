[package]
name = "transduck"
version = "0.1.0"
edition = "2021"
publish = false

[dependencies]
regex = "1"
serde = { version = "1", features = ["derive"] }
thiserror = "1"
tokio = { version = "1", features = ["process", "rt", "sync"] }
env_logger = { version = "0.11", default-features = false }
