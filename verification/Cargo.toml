[package]
name = "gufo"
version = "0.1.0"
edition = "2021"
publish = false

[dependencies]
chrono = { version = "0.4", default-features = false, features = ["std"] }
encoding_rs = "0.8"
hex = "0.4"
jpeg-encoder = "0.6"
miniz_oxide = "0.8"
xml-rs = "0.8"
