[package]
name = "refresh_dns"
version = "0.1.0"
edition = "2021"
publish = false

[dependencies]
env_logger = "*"
futures = "*"
log = "*"
tokio = { version = "*", features = ["rt", "time"] }
trust-dns-resolver = "*"
