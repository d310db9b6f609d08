[package]
name = "player"
version = "0.1.0"
edition = "2021"
publish = false

[dependencies]
hound = "3.5"
rodio = "0.20"
crossterm = "0.28"
ratatui = "0.29"
serde = { version = "1", features = ["derive"] }
serde_json = "1"
