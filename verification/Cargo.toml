[package]
name = "marketd"
version = "0.1.0"
edition = "2021"
publish = false

[dependencies]
bitcoind = "=0.36.1"
bitcoin = "=0.32.102"
hex = "=0.4.3"
anyhow = "=1.0.104"
axum = "=0.8.9"
tokio = { version = "=1.54.1", features = ["rt-multi-thread", "macros", "net", "time"] }
tower-http = { version = "=0.7.1", features = ["cors", "fs"] }
serde = { version = "=1.0.229", features = ["derive"] }
serde_json = "=1.0.154"
clap = { version = "=4.6.7", features = ["derive", "env"] }
tracing = "=0.1.44"
tracing-subscriber = { version = "=0.3.23", features = ["env-filter"] }
