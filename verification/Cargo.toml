[package]
name = "solana_stake_model"
version = "0.1.0"
edition = "2021"
publish = false

[dependencies]
borsh = "=1.8.1"
cvlr-asserts = { version = "=0.6.1", features = ["rt"] }
cvlr-early-panic = "=0.6.1"
cvlr-nondet = { version = "=0.6.1", features = ["rt"] }
solana-program = "=1.18.26"
