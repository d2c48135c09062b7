[package]
name = "zed-terminal"
version = "0.1.0"
edition = "2021"
publish = false

[dependencies]
anyhow = "1"
clap = { version = "4", features = ["derive"] }
dirs = "*"
dunce = "1"
env_logger = "*"
futures = "0.3"
log = "0.4"
schemars = "1"
serde = { version = "1", features = ["derive"] }
serde_json = "1"
shellexpand = "*"
shlex = "1"
uuid = { version = "1", features = ["v4"] }
