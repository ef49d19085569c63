[package]
name = "llamas2"
version = "0.1.0"
edition = "2021"
publish = false

[dependencies]
failure = { version = "0.1", default-features = false, features = ["std"] }
indexmap = "*"
rayon = "1"
