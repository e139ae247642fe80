[package]
name = "delegated_signing"
version = "0.1.0"
edition = "2021"
publish = false

[dependencies]
anchor-lang = { version = "=0.32.2", features = ["init-if-needed"] }
anchor-spl = { version = "=0.32.2", default-features = false, features = ["token", "token_2022", "token_2022_extensions"] }
