[package]
name = "catalog_store"
version = "0.1.0"
edition = "2021"
publish = false

[dependencies]
rustc-stable-hash = "*"
safe-mix = "*"
serde = { version = "*", features = ["derive"] }
serde_json = "*"
serde_with = "*"
