[package]
name = "clack"
version = "0.1.0"
edition = "2021"
publish = false

[dependencies]
anyhow = "1"
crossterm = "0.27"
ratatui = "0.26"
rodio = "0.17"
ropey = { version = "1.6", default-features = false }
