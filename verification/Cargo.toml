[package]
name = "xcodebuild"
version = "0.1.0"
edition = "2021"
publish = false

[dependencies]
lazy-regex = "*"
tokio-stream = "0.1"
