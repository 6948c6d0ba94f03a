[package]
name = "actix"
version = "0.5.0"
edition = "2021"
publish = false

[dependencies]
failure = "0.1"
futures = "0.1"
log = "0.4"
tokio-core = "0.1"
trust-dns-resolver = "0.8"
