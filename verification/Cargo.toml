[package]
name = "htmx_ssr"
version = "0.1.0"
edition = "2021"
publish = false

[dependencies]
http = "1"
axum = "0.8"
tokio = { version = "1", features = ["net", "rt", "rt-multi-thread", "signal"] }
tracing = "0.1"
thiserror = "2"
