[package]
name = "plugin_config"
version = "0.1.0"
edition = "2021"
publish = false

[dependencies]
toml = "*"
serde = { version = "*", features = ["derive"] }
