[package]
name = "rsipstack"
version = "0.1.0"
edition = "2021"
publish = false

[dependencies]
rsip = "0.4"
stun-rs = "*"
tokio = { version = "1", features = ["rt", "net", "sync", "time"] }
tracing = "*"
