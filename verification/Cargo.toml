[package]
name = "reflect"
version = "0.1.0"
edition = "2021"
publish = false

[dependencies]
cosmwasm-std = { version = "=1.5.11", features = ["staking"] }
serde = { version = "=1.0.229", features = ["derive"] }
