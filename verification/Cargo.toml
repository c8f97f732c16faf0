[package]
name = "greet_server"
version = "0.1.0"
edition = "2021"
publish = false

[dependencies]
serde_json = "1"
serde = { version = "1", features = ["derive"] }
actix-web = { version = "4", features = ["openssl"] }
openssl = "0.10"
