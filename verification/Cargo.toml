[package]
name = "fest"
version = "0.1.0"
edition = "2021"
publish = false

[dependencies]
url = "*"
log = "*"
fern = "*"
chrono = "*"
