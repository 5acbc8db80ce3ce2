[package]
name = "pda_custody"
version = "0.1.0"
edition = "2021"
publish = false

[dependencies]
solana-program = "*"
pinocchio = "*"
pinocchio-system = "*"
pinocchio-token = "*"
pinocchio-associated-token-account = "*"
pinocchio-secp256r1-instruction = "*"
