[package]
name = "april"
version = "0.1.0"
edition = "2021"
publish = false

[dependencies]
ehttp = { version = "*", features = ["streaming"] }
serde_json = "*"
serde = { version = "*", features = ["derive"] }
serde_yaml = "*"
clap = { version = "*", features = ["derive", "env"] }
crossterm = "*"
anyhow = "*"
chrono = "*"
walkdir = "*"
