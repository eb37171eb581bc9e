[package]
name = "ghommit"
version = "0.1.0"
edition = "2021"
publish = false

[dependencies]
git2 = { version = "0.18", default-features = false }
jsonwebtoken = "9"
reqwest = { version = "0.11", default-features = false, features = ["blocking", "json", "rustls-tls"] }
serde = { version = "1", features = ["derive"] }
serde_json = { version = "1", features = ["raw_value"] }
