[package]
name = "generic_factory"
version = "0.1.0"
edition = "2021"
publish = false

[dependencies]
sha2 = "=0.11.0"
near-sdk = { version = "=5.29.1", default-features = false, features = ["non-contract-usage"] }
