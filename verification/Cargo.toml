[package]
name = "identity_register"
version = "0.1.0"
edition = "2021"
publish = false

[dependencies]
anchor-lang = "=1.2.1"
anchor-spl = { version = "=1.2.1", features = ["metadata"] }
mpl-token-metadata = "=5.1.2-alpha.2"
