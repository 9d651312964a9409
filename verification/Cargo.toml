[package]
name = "swifi"
version = "0.1.0"
edition = "2021"
publish = false

[dependencies]
anyhow = "1"
clap = { version = "4", features = ["derive"] }
speedtest-rs = "*"
tracing = "0.1"
tracing-subscriber = "0.3"
