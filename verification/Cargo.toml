[package]
name = "vault_coordinator"
version = "0.1.0"
edition = "2021"
publish = false

[dependencies]
bitcoin = { version = "=0.26.2", features = ["base64"] }
