[package]
name = "relayer"
version = "0.1.0"
edition = "2021"
publish = false

[dependencies]
hex = "=0.4.3"
sp-crypto-hashing = "*"
serde = { version = "=1.0.229", features = ["derive"] }
toml = "=1.1.7"
clap = "=4.6.7"
log = "=0.4.34"
env_logger = "=0.11.11"
