[package]
name = "acter"
version = "0.1.0"
edition = "2021"
publish = false

[dependencies]
urlencoding = "2"
chrono = "0.4"
