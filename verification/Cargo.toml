[package]
name = "rust_service"
version = "0.1.0"
edition = "2021"
publish = false

[dependencies]
byteorder = "1"
http = "1"
image = { version = "0.25", default-features = false, features = ["png", "jpeg", "gif", "bmp", "webp"] }
prost = "0.13"
thiserror = "1"
tokio = { version = "1", features = ["rt-multi-thread", "macros", "fs", "sync", "time"] }
tonic = { version = "0.12", features = ["tls"] }
tracing = "0.1"
tracing-subscriber = { version = "0.3", features = ["env-filter"] }
