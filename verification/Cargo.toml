[package]
name = "aw_watcher_network"
version = "0.1.0"
edition = "2021"
publish = false

[dependencies]
aw-client-rust = "*"
aw-models = "*"
chrono = "*"
dirs = "*"
env_logger = "*"
log = "*"
serde_json = "*"
tokio = { version = "*", features = ["macros", "rt-multi-thread", "time"] }
toml = "*"
wifilocate = "*"
