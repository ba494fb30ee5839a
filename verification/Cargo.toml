[package]
name = "monkesto"
version = "0.1.0"
edition = "2021"
publish = false

[dependencies]
cuid = "1"
rust_decimal = "1"
hex = "0.4"
md5 = "*"
serde = { version = "1", features = ["derive"] }
postcard = { version = "1", features = ["alloc"] }
base64 = "0.22"
chrono = "0.4"
