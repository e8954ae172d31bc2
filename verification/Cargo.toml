[package]
name = "instance_manager"
version = "0.1.0"
edition = "2021"
publish = false

[dependencies]
anyhow = "1"
crossterm = "*"
ratatui = "*"
serde = { version = "1", features = ["derive"] }
serde_ini = "*"
serde_json = "1"
