[package]
name = "read_wrap"
version = "0.1.0"
edition = "2021"
publish = false

[dependencies]
anyhow = "*"
tokio = { version = "*", features = ["fs", "io-util", "macros", "rt", "time"] }
