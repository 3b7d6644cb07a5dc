[package]
name = "tx_workbench"
version = "0.1.0"
edition = "2021"
publish = false

[dependencies]
ckb-crypto = "=1.1.1"
ckb-hash = "=1.1.1"
ckb-jsonrpc-types = "=1.2.1"
ckb-sdk = "=5.1.0"
ckb-types = "=1.1.4"
clap = "=2.34.0"
numext-fixed-hash = "=0.1.6"
serde = { version = "=1.0.229", features = ["derive"] }
serde_json = "=1.0.154"
