[package]
name = "ibc_client_validation"
version = "0.1.0"
edition = "2021"
publish = false

[dependencies]
anyhow = "=1.0.104"
async-trait = "=0.1.92"
ibc = { version = "=0.19.0", default-features = false, features = ["std"] }
tendermint = { version = "=0.23.9", default-features = false }
tendermint-light-client-verifier = { version = "=0.23.9", default-features = false }
tendermint-proto = { version = "=0.23.9", default-features = false }

[dev-dependencies]
tendermint-testgen = { version = "=0.23.9", default-features = false }
