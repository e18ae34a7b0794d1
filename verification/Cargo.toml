[package]
name = "paxi_pioneers"
version = "0.1.0"
edition = "2021"
publish = false

[dependencies]
cosmwasm-std = "1"
cosmwasm-schema = "1"
cw2 = "1"
cw721 = "0.18"
cw721-base = "0.18"
cw-storage-plus = "1"
thiserror = "1"
