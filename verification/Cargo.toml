[package]
name = "proxy_checker"
version = "0.1.0"
edition = "2021"
publish = false

[dependencies]
futures = "0.3"
rayon = "1"
regex = "1"
reqwest = { version = "0.12", features = ["json"] }
serde = { version = "1", features = ["derive"] }
tokio = { version = "1", features = ["full"] }
