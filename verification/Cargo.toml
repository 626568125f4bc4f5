[package]
name = "resilience"
version = "0.1.0"
edition = "2021"
publish = false

[dependencies]
actix-web = "4"
tokio = { version = "1", features = ["time"] }
