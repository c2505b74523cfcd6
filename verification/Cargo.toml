[package]
name = "sesh"
version = "0.1.0"
edition = "2021"
publish = false

[dependencies]
anyhow = "*"
chrono = "*"
clap = { version = "*", features = ["derive"] }
crossterm = "*"
dirs = "*"
fuzzy-matcher = "*"
git2 = { version = "*", default-features = false }
ratatui = "*"
serde = { version = "*", features = ["derive"] }
serde_yaml = "*"
shellexpand = "*"
tokio = { version = "*", features = ["full"] }
toml = "*"
