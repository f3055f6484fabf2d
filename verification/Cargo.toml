[package]
name = "game_launcher"
version = "0.1.0"
edition = "2021"
publish = false

[dependencies]
sqlite = "*"
ratatui = "*"
crossterm = "*"
