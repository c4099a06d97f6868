[package]
name = "dakia"
version = "0.1.0"
edition = "2021"
publish = false

[dependencies]
regex = "1"
serde = { version = "1", features = ["derive"] }
serde_yaml = "0.9"
clap = { version = "4", features = ["derive"] }
env_logger = "0.11"
async-trait = "0.1"
pingora = { version = "0.4", features = ["proxy"] }
