[package]
name = "midithru"
version = "0.1.0"
edition = "2021"
publish = false

[dependencies]
console = "*"
serde = "*"
serde_derive = "*"
serde_json = "*"
