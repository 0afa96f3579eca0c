[package]
name = "nixos_installer"
version = "0.1.0"
edition = "2021"
publish = false

[dependencies]
anyhow = "1"
ratatui = "0.29"
serde = { version = "1", features = ["derive"] }
serde_json = "1"
