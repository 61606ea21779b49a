[package]
name = "covey"
version = "0.1.0"
edition = "2021"
publish = false

[dependencies]
indexmap = "=2.14.2"
serde = { version = "=1.0.229", features = ["derive"] }
serde_json = "=1.0.154"
toml = "=0.8.23"
clap = { version = "=4.6.7", features = ["derive"] }
interprocess = "=2.4.7"
anyhow = "=1.0.104"
dirs = "=7.0.0"
hex_color = { version = "3", features = ["serde"] }
