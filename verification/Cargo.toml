[package]
name = "haproxy-otel"
version = "0.1.0"
edition = "2021"
publish = false

[dependencies]
haproxy-api = "=0.9.0"
mlua = "=0.11.6"
tracing = "=0.1.44"
tracing-subscriber = { version = "=0.3.23", features = ["env-filter"] }
