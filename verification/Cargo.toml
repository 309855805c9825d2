[package]
name = "status_poller"
version = "0.1.0"
edition = "2021"
publish = false

[dependencies]
log = "*"
tokio = { version = "*", features = ["time"] }
