[package]
name = "sealed_config"
version = "0.1.0"
edition = "2021"
publish = false

[dependencies]
base64-url = "*"
xsalsa20poly1305 = "0.9"
rand = "0.8"
paseto = { version = "2", default-features = false, features = ["v2", "easy_tokens_chrono"] }
chrono = "0.4"
serde = { version = "1", features = ["derive"] }
serde_json = "1"
nanoid = "0.4"
thiserror = "1"
anyhow = "1"
actix-web = { version = "4", default-features = false }
