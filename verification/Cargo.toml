[package]
name = "wattpeak"
version = "0.1.0"
edition = "2021"
publish = false

[dependencies]
cosmwasm-schema = "=1.5.11"
cosmwasm-std = { version = "=1.5.11", features = ["stargate"] }
cw-storage-plus = "=1.2.0"
thiserror = "=1.0.69"
token-bindings = "=0.11.0"
