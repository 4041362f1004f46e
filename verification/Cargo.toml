[package]
name = "inf1_jup_interface"
version = "0.1.0"
edition = "2021"
publish = false

[dependencies]
# The library calls solana-instruction and solana-pubkey.
solana-instruction = "=3.5.1"
solana-pubkey = "=4.4.0"
# The adapter in app/ implements the router's interface.
anyhow = "=1.0.104"
jupiter-amm-interface = "=0.6.1"
rust_decimal = "=1.43.0"
# Nothing calls this one. The router's interface takes any version of it, and the newest
# needs a newer compiler than Verus comes with: none of the crates is then built. With this
# one all are built but the interface itself, which calls a method that it does not have.
solana-account-decoder = { version = "=4.1.2", features = ["agave-unstable-api"] }
