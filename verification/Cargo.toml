[package]
name = "twitter_dapp_solana"
version = "0.1.0"
edition = "2021"
publish = false

[dependencies]
anchor-lang = "*"
