[package]
name = "gas_fees_benchmark"
version = "0.1.0"
edition = "2021"
publish = false

[dependencies]
cosmwasm-std = { version = "1", features = ["staking"] }
cw2 = "1"
cw-storage-plus = "1"
schemars = "0.8"
serde = { version = "1", default-features = false, features = ["derive"] }
thiserror = "1"
