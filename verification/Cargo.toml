[package]
name = "netwatch-core"
version = "0.1.0"
edition = "2021"
publish = false

[dependencies]
axum = { version = "0.7", features = ["ws"] }
chrono = "0.4"
clap = { version = "4", features = ["derive"] }
dirs = "5"
rusqlite = "0.31"
serde = { version = "1", features = ["derive"] }
serde_json = "1"
thiserror = "1"
tokio = { version = "1", features = ["full"] }
toml = "0.8"
