[package]
name = "cw_orch_daemon"
version = "0.1.0"
edition = "2021"
publish = false

[dependencies]
cosmrs = { version = "=0.15.0", features = ["bip32", "cosmwasm", "grpc"] }
bip32 = { version = "=0.5.3", features = ["bip39"] }
k256 = { version = "=0.13.4", features = ["ecdsa"] }
sha3 = "0.10"
flate2 = "=1.1.10"
shell-words = "=1.1.1"
prost = "=0.12.6"
prost-types = "=0.12.6"
tonic = "=0.10.2"
tokio = { version = "=1.54.1", features = ["rt-multi-thread", "time"] }
serde = { version = "=1.0.229", features = ["derive"] }
serde_json = "=1.0.154"
cosmwasm-std = "=1.5.11"
clap = { version = "=4.6.7", features = ["derive"] }
interactive-clap = "=0.2.10"
interactive-clap-derive = "=0.2.10"
inquire = "=0.6.2"
strum = { version = "=0.24.1", features = ["derive"] }
color-eyre = "=0.6.5"
