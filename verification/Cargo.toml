[package]
name = "umobile_exporter"
version = "0.1.0"
edition = "2021"
publish = false

[dependencies]
scraper = "*"
reqwest = { version = "0.11", default-features = false, features = ["cookies", "multipart"] }
axum = "0.6"
tokio = { version = "1", features = ["full"] }
stopper = "*"
ctrlc = "*"
envy = "*"
serde = { version = "1", features = ["derive"] }
anyhow = "1"
tracing = "0.1"
tracing-subscriber = "0.3"
