[package]
name = "offline_transaction"
version = "0.1.0"
edition = "2021"
publish = false

[dependencies]
anyhow = "1"
bitcoin = "0.32"
clap = { version = "4", features = ["derive"] }
colored = "*"
hex = "0.4"
serde = { version = "1", features = ["derive"] }
serde_json = "1"
thiserror = "*"
