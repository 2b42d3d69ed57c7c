[package]
name = "private_stats"
version = "0.1.0"
edition = "2021"
publish = false

[dependencies]
substrate-fixed = "*"
rand = { version = "0.8", default-features = false }
rand_chacha = { version = "0.3", default-features = false }
sha2 = { version = "0.10", default-features = false }
bincode2 = "2"
cosmwasm-std = "1.5"
cosmwasm-storage = "1.5"
serde = { version = "1", default-features = false, features = ["derive"] }
schemars = "0.8"
