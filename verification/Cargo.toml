[package]
name = "bet_ledger"
version = "0.1.0"
edition = "2021"
publish = false

[dependencies]
cw-utils = "=1.0.3"
schemars = "=0.8.22"
secret-cosmwasm-std = "=1.1.11"
secret-toolkit = { version = "=0.10.3", default-features = false, features = ["storage"] }
serde = { version = "=1.0.229", default-features = false, features = ["derive"] }
thiserror = "=1.0.69"

[dev-dependencies]
cosmwasm-std = "=1.5.11"
