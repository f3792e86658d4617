[package]
name = "liquidity_pool"
version = "0.1.0"
edition = "2021"
publish = false

[dependencies]
cosmwasm-std = { version = "=3.0.10", features = ["cosmwasm_2_0"] }
cosmwasm-schema = "=3.0.10"
cw-storage-plus = "=3.0.1"
cw2 = "=3.0.0"
prost = "=0.14.4"
serde = { version = "=1.0.229", features = ["derive"] }
thiserror = "=2.0.21"
