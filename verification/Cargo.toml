[package]
name = "lets_start"
version = "0.1.0"
edition = "2021"
publish = false

[dependencies]
serde = { version = "*", features = ["derive"] }
serde_json = "*"
validator = "*"
url = "*"
regex = "*"
sentry = { version = "*", default-features = false }
config = "*"
tracing = "*"
tracing-subscriber = { version = "*", features = ["env-filter"] }
