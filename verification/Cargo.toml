[package]
name = "jobfeed"
version = "0.1.0"
edition = "2021"
publish = false

[dependencies]
libxml = "=0.3.3"
serde = { version = "=1.0.229", features = ["derive"] }
axum = { version = "=0.8.9", features = ["multipart"] }
tokio = { version = "=1.53.2", features = ["rt-multi-thread", "net", "macros"] }
log = "=0.4.34"
