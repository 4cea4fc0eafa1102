[package]
name = "p3get"
version = "0.1.0"
edition = "2021"
publish = false

[dependencies]
console = { version = "=0.16.6", default-features = false, features = ["std"] }
futures = "=0.3.34"
indicatif = "=0.16.2"
reqwest = { version = "=0.11.27", features = ["stream"] }
tokio = { version = "=1.54.1", features = ["full"] }
