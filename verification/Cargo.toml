[package]
name = "glide_fabric"
version = "0.1.0"
edition = "2021"
publish = false

[dependencies]
redis = { version = "0.27", features = ["aio", "tokio-comp"] }
tokio = { version = "1", features = ["rt", "rt-multi-thread", "sync", "time", "macros"] }
thiserror = "2"
ofi-libfabric-sys = "*"
