[package]
name = "terminal_music_player"
version = "0.1.1"
edition = "2021"
publish = false

[dependencies]
anyhow = "1"
crossterm = "*"
dirs = "*"
rand = "*"
ratatui = "*"
rodio = "*"
serde = { version = "1", features = ["derive"] }
serde_json = "1"
