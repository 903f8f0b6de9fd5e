[package]
name = "bzip2"
version = "0.1.0"
edition = "2021"
publish = false

[dependencies]
libc = "0.2"
futures = "0.1"
tokio-io = "0.1"

[dev-dependencies]
rand = "0.8"
