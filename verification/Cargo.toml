[package]
name = "pgui"
version = "0.1.0"
edition = "2021"
publish = false

[dependencies]
anyhow = "1"
async-fs = "2"
async-lock = "3"
chrono = "0.4"
dirs = "6"
futures = "0.3"
hex = "0.4"
keyring = "3"
lsp-types = "0.97"
rust_decimal = "1"
serde = { version = "1", features = ["derive"] }
serde_json = "1"
smol = "2"
smolhttp = "*"
sqlx = { version = "0.8", default-features = false, features = ["runtime-async-std", "tls-rustls", "postgres", "mysql", "sqlite", "chrono", "rust_decimal", "json"] }
ssh2 = "0.9"
tracing = "0.1"
tracing-subscriber = { version = "0.3", features = ["env-filter"] }
uuid = { version = "1", features = ["v4"] }
