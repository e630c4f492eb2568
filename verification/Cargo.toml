[package]
name = "session_cells"
version = "0.1.0"
edition = "2021"
publish = false

[dependencies]
unicode-width = "0.2"
ratatui = { version = "0.29", default-features = false }
dirs = "6"
