[package]
name = "wifi_connect"
version = "0.1.0"
edition = "2021"
publish = false

[dependencies]
network-manager = "*"
nix = { version = "*", features = ["signal", "user"] }
clap = "*"
log = "*"
env_logger = "*"
serde = { version = "*", features = ["derive"] }
serde_json = "*"
warp = "*"
tokio = { version = "*", features = ["rt-multi-thread"] }
