[package]
name = "jvm"
version = "0.1.0"
edition = "2021"
publish = false

[dependencies]
clap = "2.34.0"
zip = { version = "0.6.6", default-features = false, features = ["deflate"] }
