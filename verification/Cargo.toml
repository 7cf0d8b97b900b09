[package]
name = "privacy_vault"
version = "0.1.0"
edition = "2021"
publish = false

[dependencies]
anchor-lang = "=0.31.1"
account-compression = { version = "=2.0.0", features = ["cpi"] }
