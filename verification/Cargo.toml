[package]
name = "repocard_studio"
version = "0.1.0"
edition = "2021"
publish = false

[dependencies]
chrono = "*"
dirs = "*"
reqwest = { version = "*", default-features = false, features = ["json"] }
resvg = "*"
serde = { version = "*", features = ["derive"] }
serde_json = "*"
