[package]
name = "termgrid"
version = "0.1.0"
edition = "2021"
publish = false

[dependencies]
ratatui = { version = "0.26", default-features = false }
