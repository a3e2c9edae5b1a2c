[package]
name = "solana_lessons"
version = "0.1.0"
edition = "2021"
publish = false

[dependencies]
pinocchio = "=0.12.0"
pinocchio-token = "=0.8.0"
pinocchio-token-2022 = "=0.5.0"
pinocchio-associated-token-account = "=0.5.0"
pinocchio-system = "=0.7.0"
solana-address = { version = "=2.9.0", features = ["curve25519", "decode"] }
chrono = "=0.4.45"
bincode = "=1.3.3"
bs58 = "=0.5.1"
solana-system-interface = { version = "=3.3.0", features = ["serde", "alloc"] }
