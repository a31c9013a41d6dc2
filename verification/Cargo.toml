[package]
name = "fhe_match"
version = "0.1.0"
edition = "2021"
publish = false

[dependencies]
tfhe = { version = "=0.11.3", default-features = false, features = ["integer"] }
