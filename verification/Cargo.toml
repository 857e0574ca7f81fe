[package]
name = "lamport_transfer"
version = "0.1.0"
edition = "2021"
publish = false

[dependencies]
borsh = { version = "1", features = ["derive"] }
solana-program = "1.18"

[dev-dependencies]
bincode = "1.3"
