[package]
name = "matrix_rain_core"
version = "0.1.0"
edition = "2021"
publish = false

[dependencies]
rand = "0.8"
anyhow = "1"
clap = { version = "4", features = ["derive"] }
crossterm = "0.27"
serde = { version = "1", features = ["derive"] }
serde_json = "1"
