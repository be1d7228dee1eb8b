[package]
name = "luna"
version = "0.1.0"
edition = "2021"
publish = false

[dependencies]
mlua = { version = "0.11", features = ["lua54", "vendored", "async", "send"] }
tokio = { version = "1", features = ["full"] }
thiserror = "2"
tracing = "0.1"
tracing-subscriber = "0.3"
uniffi = "0.29"
axum = "0.8"
ureq = "2"
paranoid-android = "0.2"
