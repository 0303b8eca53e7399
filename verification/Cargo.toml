[package]
name = "http_source"
version = "0.1.0"
edition = "2021"
publish = false

[dependencies]
url = "2"
ureq = { version = "3", default-features = false }
