[package]
name = "gpio2mqtt"
version = "0.1.0"
edition = "2021"
publish = false

[dependencies]
serde_json = "*"
clap = { version = "*", features = ["derive"] }
env_logger = "*"
log = "*"
rppal = "*"
rumqttc = "*"
serde = { version = "*", features = ["derive"] }
serde_derive = "*"
tokio = { version = "*", features = ["rt", "macros", "sync", "time"] }
toml = "*"
