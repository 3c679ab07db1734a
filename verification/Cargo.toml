[package]
name = "stellar_toml"
version = "0.1.0"
edition = "2021"
publish = false

[dependencies]
http = "0.2"
toml = "0.5"
stellar-base = "*"
hyper = { version = "0.14", features = ["client", "http1", "tcp"] }
hyper-tls = "0.5"
