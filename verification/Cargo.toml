[package]
name = "lunar_nft"
version = "0.1.0"
edition = "2021"
publish = false

[dependencies]
cosmwasm-std = "1.1"
cw-storage-plus = "0.16"
cw721-base = { version = "0.16", features = ["library"] }
schemars = "0.8"
serde = { version = "1", default-features = false, features = ["derive"] }
thiserror = "1"
