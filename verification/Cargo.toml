[package]
name = "card_catalog"
version = "0.1.0"
edition = "2021"
publish = false

[dependencies]
serde = { version = "=1.0.229", features = ["derive"] }
toml = "=0.8.23"
chrono = { version = "=0.4.45", features = ["serde"] }
