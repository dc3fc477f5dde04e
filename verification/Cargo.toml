[package]
name = "bundlr"
version = "0.1.0"
edition = "2021"
publish = false

[dependencies]
num = "*"
reqwest = { version = "*", default-features = false }
serde = { version = "*", features = ["derive"] }
serde_json = "*"
tokio = { version = "*", features = ["time"] }
