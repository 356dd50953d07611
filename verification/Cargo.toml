[package]
name = "toml_settings"
version = "0.1.0"
edition = "2021"
publish = false

[dependencies]
anyhow = "=1.0.104"
toml = "=0.8.23"
