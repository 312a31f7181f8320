[package]
name = "fogbugz"
version = "0.1.0"
edition = "2021"
publish = false

[dependencies]
chrono = "*"
leaky-bucket = "*"
reqwest = { version = "*", default-features = false, features = ["json"] }
serde = "*"
serde_json = "*"
url = "*"
