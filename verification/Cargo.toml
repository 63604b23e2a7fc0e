[package]
name = "latexfogel"
version = "0.1.0"
edition = "2021"
publish = false

[dependencies]
tokio = { version = "1", features = ["process", "io-util", "time", "rt-multi-thread", "macros"] }
anyhow = "1"
tempfile = "3"
