[package]
name = "license_scan"
version = "0.1.0"
edition = "2021"
publish = false

[dependencies]
failure = { version = "=0.1.8", default-features = false, features = ["std"] }
serde = { version = "1", features = ["derive"] }
