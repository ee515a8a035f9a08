[package]
name = "static_merkle_array"
version = "0.1.0"
edition = "2021"
publish = false

[dependencies]
ark-bn254 = "0.4"
ark-ff = "0.4"
bincode = "1.3"
hex = "0.4"
num-bigint = "0.4"
num-traits = "0.2"
serde = { version = "1", features = ["derive"] }
sha2 = "0.10"
thiserror = "1"

[dev-dependencies]
rand = "0.8"
