[package]
name = "comdrive"
version = "0.1.0"
edition = "2021"
publish = false

[dependencies]
widestring = "=1.2.1"
winapi = { version = "*", default-features = false }
