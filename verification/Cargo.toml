[package]
name = "sentinel-pool"
version = "0.1.0"
edition = "2021"
publish = false

[dependencies]
soroban-sdk = { version = "=25.3.2", features = ["hazmat-address"] }

[dev-dependencies]
soroban-sdk = { version = "=25.3.2", features = ["hazmat-address", "testutils"] }
