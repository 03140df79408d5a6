[package]
name = "scrippt"
version = "0.1.0"
edition = "2021"
publish = false

[dependencies]
jsonwebtoken = { version = "=11.1.0", features = ["rust_crypto"] }
serde = "=1.0.229"
serde_json = "=1.0.151"
rust-argon2 = "=3.0.0"
rand = "=0.10.3"
bson = "=3.1.0"
email-address-parser = "=2.0.2"
chrono = "=0.4.45"
