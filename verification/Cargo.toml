[package]
name = "audio_burner"
version = "0.1.0"
edition = "2021"
publish = false

[dependencies]
anyhow = "1"
crossterm = "0.28"
humantime = "2"
lofty = "*"
ratatui = "0.29"
rusqlite = { version = "*", features = ["bundled"] }
tempfile = "3"
walkdir = "2"
