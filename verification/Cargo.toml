[package]
name = "toy_payments"
version = "0.1.0"
edition = "2021"
publish = false

[dependencies]
csv = "*"
serde = { version = "*", features = ["derive"] }
log = "*"
env_logger = "*"
thiserror = "*"
