[package]
name = "tui_slider"
version = "0.1.0"
edition = "2021"
publish = false

[dependencies]
unicode-width = "0.1"
ratatui = { version = "0.28", default-features = false }
