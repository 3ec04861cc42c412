[package]
name = "polyrev"
version = "0.1.0"
edition = "2021"
publish = false

[dependencies]
anyhow = "*"
chrono = "*"
clap = { version = "*", features = ["derive"] }
futures = "*"
globset = "*"
ignore = "*"
rand = "*"
serde = { version = "*", features = ["derive"] }
serde_json = "*"
serde_yaml = "*"
sha2 = "*"
tempfile = "*"
tokio = { version = "*", features = ["full"] }
uuid = { version = "*", features = ["v4"] }
