[package]
name = "minimum-viewer"
version = "0.1.6"
edition = "2021"
publish = false

[dependencies]
crossterm = "0.28"
ratatui = "0.29"
