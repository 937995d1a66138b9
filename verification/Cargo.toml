[package]
name = "verifier_client"
version = "0.1.0"
edition = "2021"
publish = false

[dependencies]
base64 = "=0.22.1"
snap = "=1.1.2"
solana-pubkey = { version = "=4.4.0", features = ["curve25519"] }
solana-keypair = "=4.0.0"
solana-signer = "=4.0.0"
solana-signature = "=3.6.0"
solana-hash = "=4.7.0"
solana-instruction = "=4.0.0"
solana-message = "=5.1.0"
solana-transaction = { version = "=5.1.0", features = ["wincode"] }
solana-commitment-config = "=3.1.1"
