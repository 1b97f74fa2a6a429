[package]
name = "openai_rs"
version = "0.1.0"
edition = "2021"
publish = false

[dependencies]
hyper = { version = "0.14", features = ["client", "http1", "http2", "tcp"] }
hyper-openssl = "0.9"
serde = { version = "1", features = ["derive"] }
serde_json = "1"
