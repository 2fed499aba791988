[package]
name = "ownable-cookie"
version = "0.1.0"
edition = "2021"
publish = false

[dependencies]
bs58 = "=0.4.0"
cosmwasm-std = "=1.5.11"
cw2 = "=1.1.2"
cw-storage-plus = "=1.2.0"
ownable-std = "=0.2.4"
schemars = "=0.8.22"
secp256k1 = "=0.26.0"
serde = { version = "=1.0.229", features = ["derive"] }
thiserror = "=1.0.69"
