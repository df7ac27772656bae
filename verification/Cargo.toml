[package]
name = "engagement"
version = "0.1.0"
edition = "2021"
publish = false

[dependencies]
rocket = { version = "*", features = ["json"] }
reqwest = { version = "*", features = ["json"] }
serde = { version = "*", features = ["derive"] }
serde_json = "*"
