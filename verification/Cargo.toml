[package]
name = "key_storage"
version = "0.1.0"
edition = "2021"
publish = false

[dependencies]
fastcrypto = "*"
blake2 = "*"
