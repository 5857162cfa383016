[package]
name = "mock_io"
version = "0.3.0"
edition = "2021"
publish = false

[dependencies]
async-channel = "*"
futures-io = "*"
pin-project-lite = "*"
tokio = { version = "1", default-features = false, features = ["sync", "io-util"] }
