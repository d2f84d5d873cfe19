[package]
name = "azap_auth"
version = "0.1.0"
edition = "2021"
publish = false

[dependencies]
scrypt = "0.2"
actix-web = { version = "3", default-features = false }
actix-session = "0.4"
deadpool-postgres = "0.5"
serde = { version = "1", features = ["derive"] }
serde_json = "1"
