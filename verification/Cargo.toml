[package]
name = "lsd_core"
version = "0.1.0"
edition = "2021"
publish = false

[dependencies]
cosmwasm-std = { version = "=1.5.11", features = ["staking"] }
cw20 = "=1.1.2"
