[package]
name = "xchain_bridge"
version = "0.1.0"
edition = "2021"
publish = false

[dependencies]
hex = "=0.4.3"
near-sdk = { version = "=5.29.1", features = ["non-contract-usage"] }
near-contract-standards = "=5.29.1"
