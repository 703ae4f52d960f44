[package]
name = "contract_class"
version = "0.1.0"
edition = "2021"
publish = false

[dependencies]
cairo-lang-starknet-classes = "2"
cairo-vm = { version = "3", default-features = false, features = ["std"] }
num-bigint = "0.4"
serde = { version = "1", features = ["derive"] }
serde_json = "1"
starknet_api = "0.11"
