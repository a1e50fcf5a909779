[package]
name = "h2x"
version = "0.1.0"
edition = "2021"
publish = false

[dependencies]
bytes = "*"
h2 = "*"
http = "*"
tokio = { version = "*", features = ["rt", "net"] }
tokio-tls-listener = "*"
