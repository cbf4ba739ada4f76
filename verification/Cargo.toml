[package]
name = "lan-mouse"
version = "0.1.0"
edition = "2021"
publish = false

[dependencies]
anyhow = "1"
endi = "1"
futures = "0.3"
local-channel = "0.1"
log = "0.4"
serde = { version = "1", features = ["derive"] }
serde_json = "1"
thiserror = "1"
tokio = { version = "1", features = ["io-util", "macros", "process", "rt", "sync", "time"] }
