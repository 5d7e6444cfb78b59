[package]
name = "w3b2"
version = "0.1.0"
edition = "2021"
publish = false

[dependencies]
anchor-lang = "=0.31.2"
base64 = "=0.22.1"
serde = { version = "=1.0.229", features = ["derive"] }
clap = { version = "=4.6.7", features = ["derive"] }
tokio = { version = "=1.54.1", features = ["rt-multi-thread", "macros", "sync", "time", "signal"] }
anyhow = "=1.0.104"
config = { version = "=0.14.1", default-features = false, features = ["toml"] }
sled = "=0.34.7"
tracing = "=0.1.44"
tracing-subscriber = { version = "=0.3.23", features = ["fmt", "json", "env-filter"] }
dashmap = "6"
