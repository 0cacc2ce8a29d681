[package]
name = "speedwar_cli"
version = "0.1.0"
edition = "2021"
publish = false

[dependencies]
chrono = "0.4"
random-string = "*"
clap = { version = "4", features = ["derive"] }
serde = { version = "1", features = ["derive"] }
serde_json = "1"
tempfile = "3"
log = "0.4"
env_logger = "*"
websocket = { version = "*", default-features = false, features = ["sync"] }
