[package]
name = "tui_theme"
version = "0.1.0"
edition = "2021"
publish = false

[dependencies]
anyhow = "1"
ratatui = { version = "0.29", default-features = false }
