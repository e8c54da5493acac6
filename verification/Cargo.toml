[package]
name = "host_bridge"
version = "0.1.0"
edition = "2021"
publish = false

[dependencies]
cosmwasm-crypto = "1.5"
cosmwasm-std = "0.10"
cosmwasm-storage = "0.10"
schemars = "0.7"
serde = { version = "1", features = ["derive"] }
serde-json-wasm = "0.2"
wasmi = "0.6"

[dev-dependencies]
bech32 = "0.9"
