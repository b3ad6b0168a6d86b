[package]
name = "sorcerer"
version = "0.1.0"
edition = "2021"
publish = false

[dependencies]
serde = { version = "1", features = ["derive"] }
serde_json = "1"
fluence-spell-dtos = "0.5"
libp2p = "0.52"
log = "0.4"
tracing = "0.1"
axum = "0.6"
prometheus-client = "0.21"
web3 = { version = "0.19", default-features = false }
failure = "0.1"
async-std = "1"
futures = "0.3"
futures-util = "0.3"
parity-multiaddr = "0.11"
uuid = { version = "1", features = ["v4"] }
env_logger = "0.10"
