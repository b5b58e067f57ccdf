[package]
name = "alfred_rs"
version = "0.1.0"
edition = "2021"
publish = false

[dependencies]
semver = "*"
url = "*"
chrono = "*"
serde = { version = "*", features = ["derive"] }
serde_json = "*"
tempfile = "*"
reqwest = { version = "*", default-features = false, features = ["blocking", "rustls-tls"] }
