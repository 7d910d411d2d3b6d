[package]
name = "hoards"
version = "0.1.0"
edition = "2021"
publish = false

[dependencies]
anyhow = "=1.0.104"
serde_json = "=1.0.154"
regex = "=1.13.1"
ratatui = { version = "=0.30.2", default-features = false }
crossterm = "0.29"
chrono = "0.4"
which = "*"
