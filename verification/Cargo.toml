[package]
name = "signature_to_keys"
version = "0.1.0"
edition = "2021"
publish = false

[dependencies]
age = { version = "0.11", features = ["ssh"] }
anyhow = "1"
curve25519-dalek = "4"
serde = { version = "1", features = ["derive"] }
serde_json = "1"
sha2 = "0.10"
ssh-key = { version = "0.6", features = ["ed25519"] }
trezor-client = "0.1"
zeroize = { version = "1", features = ["derive"] }
