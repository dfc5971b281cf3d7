[package]
name = "readable"
version = "0.1.0"
edition = "2021"
publish = false

[dependencies]
url = "*"
readable-readability = "*"
chrono = "*"
reqwest = { version = "*", default-features = false, features = ["blocking"] }
