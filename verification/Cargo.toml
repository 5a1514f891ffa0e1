[package]
name = "visionvoice"
version = "0.1.0"
edition = "2021"
publish = false

[dependencies]
anyhow = "1"
byteorder = "1"
env_logger = "0.11"
i2cdev = "0.6"
log = "0.4"
serde = { version = "1", features = ["derive"] }
serde_json = "1"
tokio = { version = "1", features = ["rt", "macros", "process", "io-util", "time", "signal", "sync"] }
toml = "0.8"
