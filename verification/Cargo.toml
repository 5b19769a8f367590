[package]
name = "lease_core"
version = "0.1.0"
edition = "2021"
publish = false

[dependencies]
cosmwasm-std = "=1.5.11"
cw-storage-plus = "=1.2.0"
schemars = "=0.8.22"
serde = { version = "=1.0.229", features = ["derive"] }
serde-json-wasm = "=0.5.2"
thiserror = "=1.0.69"

[dev-dependencies]
cosmos-sdk-proto = { version = "*", default-features = false }
