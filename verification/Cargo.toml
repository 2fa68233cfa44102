[package]
name = "wifi-connect"
version = "0.1.0"
edition = "2021"
publish = false

[dependencies]
network-manager = "*"
log = "0.4"
env_logger = "*"
reqwest = { version = "0.11", features = ["blocking"] }
crossbeam = "0.8"
nix = { version = "*", features = ["signal", "user"] }
clap = "2"
error-chain = "0.12"
serde = { version = "1", features = ["derive"] }
serde_derive = "1"
serde_json = "1"
iron = "*"
iron-cors = "*"
router = "*"
staticfile = "*"
mount = "*"
params = "*"
persistent = "*"
