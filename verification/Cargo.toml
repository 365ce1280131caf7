[package]
name = "exercises"
version = "0.1.0"
edition = "2021"
publish = false

[dependencies]
anyhow = "=1.0.104"
crossterm = "=0.27.0"
derive_more = "=0.99.20"
futures = "=0.3.34"
inquire = "=0.7.5"
libc = "=0.2.191"
rand = "=0.8.8"
serde = { version = "=1.0.229", features = ["derive"] }
serde_json = "=1.0.154"
serde_yaml = "=0.9.34"
tokio = { version = "=1.54.1", features = ["rt-multi-thread", "macros", "net", "io-util", "sync"] }
tokio-stream = { version = "=0.1.19", features = ["sync"] }
