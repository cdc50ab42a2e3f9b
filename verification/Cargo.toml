[package]
name = "ctf_anchor"
version = "0.1.0"
edition = "2021"
publish = false

[dependencies]
anchor-lang = "0.31"
solana-program = "2"
