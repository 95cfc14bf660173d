[package]
name = "columbo"
version = "0.1.0"
edition = "2021"
publish = false

[dependencies]
axum-core = "*"
bytes = "*"
futures = "*"
maud = "*"
tokio = { version = "1", features = ["rt", "rt-multi-thread", "sync", "macros", "time"] }
tokio-stream = "*"
tokio-util = "*"
tracing = "*"

[dev-dependencies]
scraper = "*"
