[package]
name = "fx_session"
version = "0.1.0"
edition = "2021"
publish = false

[dependencies]
ansi-to-tui = "*"
ratatui = "*"
tachyonfx = "*"
web-time = "*"
unicode-width = "*"
eyre = "*"
