[package]
name = "data_source"
version = "0.1.0"
edition = "2021"
publish = false

[dependencies]
anyhow = "1"
semver = "1"
serde = { version = "1", features = ["derive"] }
serde_json = "1"
slog = "2"
thiserror = "1"
