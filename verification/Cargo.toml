[package]
name = "mindload"
version = "0.1.0"
edition = "2021"
publish = false

[dependencies]
serde = { version = "=1.0.229", features = ["derive"] }
serde_json = "=1.0.154"
dirs = "=5.0.1"
reqwest = { version = "=0.12.28", default-features = false, features = ["json"] }
