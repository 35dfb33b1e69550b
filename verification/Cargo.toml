[package]
name = "crepuscularity-cli"
version = "0.1.0"
edition = "2021"
publish = false

[dependencies]
serde = { version = "=1.0.229", features = ["derive"] }
serde_json = "=1.0.154"
clap = { version = "=4.6.7", features = ["derive"] }
console = "=0.15.11"
toml = "=0.8.23"
pulldown-cmark = "*"
notify = "*"
