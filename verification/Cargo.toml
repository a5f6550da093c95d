[package]
name = "babelmap"
version = "0.1.0"
edition = "2021"
publish = false

[dependencies]
ratatui = { version = "0.29", default-features = false }
regex = "=1.13.1"
toml = "=0.8.23"
toml_edit = "=0.22.27"
