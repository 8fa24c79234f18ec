[package]
name = "smart_home"
version = "0.1.0"
edition = "2021"
publish = false

[dependencies]
dashmap = "*"

[dev-dependencies]
tokio = { version = "*", features = ["rt-multi-thread"] }
