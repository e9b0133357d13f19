[package]
name = "trackdown"
version = "0.1.0"
edition = "2021"
publish = false

[dependencies]
url = "2"
urlencoding = "2"
aes-gcm = "0.10"
