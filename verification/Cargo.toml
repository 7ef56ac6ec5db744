[package]
name = "steve"
version = "0.1.0"
edition = "2021"
publish = false

[dependencies]
serde = { version = "1", features = ["derive"] }
serde_json = "1"
toml = "0.8"
url = "1"
hyper = "0.10"
hubcaps = "0.3"
log = "0.4"
env_logger = "0.11"
