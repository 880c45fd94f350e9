[package]
name = "cw_asset"
version = "0.1.0"
edition = "2021"
publish = false

[dependencies]
cosmwasm-std = "3"
cosmwasm-schema = "3"
cw20 = "*"
cw-storage-plus = "*"
cw-address-like = "*"
thiserror = "*"
