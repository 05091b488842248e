[package]
name = "ratatui_interact"
version = "0.4.1"
edition = "2021"
publish = false

[dependencies]
crossterm = "0.29"
ratatui = "0.30"
regex = "1"
serde = { version = "1", features = ["derive"] }
unicode-width = "0.2"
