[package]
name = "tap_core"
version = "0.1.0"
edition = "2021"
publish = false

[dependencies]
alloy-primitives = "0.5"
alloy-sol-types = "0.5"
ethers-core = "2"
ethers-signers = "2"
tokio = { version = "1", features = ["sync"] }
