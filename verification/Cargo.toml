[package]
name = "mcp_gateway"
version = "0.1.0"
edition = "2021"
publish = false

[dependencies]
axum = "0.8"
tower-http = { version = "0.6", features = ["catch-panic", "compression-gzip", "trace"] }
tracing-subscriber = { version = "0.3", features = ["env-filter", "json"] }
