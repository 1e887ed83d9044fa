[package]
name = "tokio_tui"
version = "0.1.0"
edition = "2021"
publish = false

[dependencies]
ratatui = "*"
crossterm = "*"
clipboard = "*"
