[package]
name = "tx_broadcast"
version = "0.1.0"
edition = "2021"
publish = false

[dependencies]
alloy-primitives = "=0.6.4"
ethers-core = "=2.0.14"
ethers-providers = { version = "=2.0.14", default-features = false }
ethers-signers = { version = "=2.0.14", default-features = false }
eyre = "=0.6.14"
futures = "=0.3.34"
serde = { version = "=1.0.229", features = ["derive"] }
serde_json = "=1.0.154"
tokio = { version = "=1.54.1", features = ["rt", "time"] }
