[package]
name = "buildj"
version = "0.1.0"
edition = "2021"
publish = false

[dependencies]
rust-crypto = "*"
dirs = "*"
json = "*"
urlencoding = "*"
plist = "*"
reqwest = { version = "*", default-features = false, features = ["blocking"] }
