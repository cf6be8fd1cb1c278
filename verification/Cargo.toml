[package]
name = "lido"
version = "0.1.0"
edition = "2021"
publish = false

[dependencies]
solana-program = "=5.2.0"
spl-token = { version = "=9.0.0", features = ["no-entrypoint"] }
spl-stake-pool = { version = "=2.2.0", features = ["no-entrypoint"] }
solana-stake-interface = { version = "=4.4.0", features = ["borsh", "serde", "sysvar"] }
solana-sdk = "=5.0.0"
borsh = { version = "=1.8.1", features = ["derive"] }
bincode = "=1.3.3"
serde = { version = "=1.0.229", features = ["derive"] }
clap = { version = "=4.6.7", features = ["derive"] }
