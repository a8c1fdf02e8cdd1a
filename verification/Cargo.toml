[package]
name = "full_duplex_io"
version = "0.1.0"
edition = "2021"
publish = false

[dependencies]
fastrand = "=2.5.0"
futures-lite = "=2.6.1"
