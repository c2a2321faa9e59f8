[package]
name = "mirror_staking"
version = "0.1.0"
edition = "2021"
publish = false

[dependencies]
cosmwasm-std = "=0.16.7"
cosmwasm-storage = "=0.16.7"
cw20 = "=0.8.1"
mirror-protocol = "=2.1.1"
terraswap = "=2.4.1"
schemars = "=0.8.22"
serde = { version = "=1.0.229", default-features = false, features = ["derive"] }
