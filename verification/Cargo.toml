[package]
name = "melors"
version = "0.1.0"
edition = "2021"
publish = false

[dependencies]
anyhow = "1"
chrono = "0.4"
crossterm = "0.29"
dirs = "6"
fuzzy-matcher = "0.3"
id3 = "1"
ratatui = "0.29"
rodio = "*"
rusqlite = { version = "*", features = ["bundled"] }
rustfft = "6"
serde = { version = "1", features = ["derive"] }
toml = "*"
walkdir = "2"
