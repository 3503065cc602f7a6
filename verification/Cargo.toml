[package]
name = "socks5_server"
version = "0.1.0"
edition = "2021"
publish = false

[dependencies]
anyhow = "*"
lexopt = "*"
tokio = { version = "*", features = ["rt-multi-thread", "net", "io-util", "macros"] }
