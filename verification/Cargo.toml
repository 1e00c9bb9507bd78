[package]
name = "anchor_registry"
version = "0.1.0"
edition = "2021"
publish = false

[dependencies]
hex = "*"
sha2 = "*"
serde = { version = "*", features = ["derive"] }
schemars = "*"
cosmwasm-std = "*"
cw-storage-plus = "*"
