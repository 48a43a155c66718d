[package]
name = "cw-it"
version = "0.1.0"
edition = "2021"
publish = false

[dependencies]
anyhow = "1"
config = { version = "*", default-features = false, features = ["yaml"] }
cosmrs = "=0.20.0"
cosmwasm-std = { version = "=2.3.6", features = ["staking", "stargate"] }
cw-multi-test = { version = "=2.5.1", features = ["staking", "stargate"] }
osmosis-std = "=0.27.0"
prost = "=0.13.5"
serde = { version = "1", features = ["derive"] }
test-tube = "=0.9.0"
thiserror = "1"
