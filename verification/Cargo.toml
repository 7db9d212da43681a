[package]
name = "confidential_escrow"
version = "0.1.0"
edition = "2021"
publish = false

[dependencies]
bytemuck = "=1.25.2"
solana-program = "=5.1.0"
spl-token-2022 = "=11.1.0"
solana-zk-sdk = "=4.0.0"
solana-instruction = "=3.5.1"
