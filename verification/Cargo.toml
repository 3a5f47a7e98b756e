[package]
name = "deidentify"
version = "0.1.0"
edition = "2021"
publish = false

[dependencies]
chrono = { version = "0.4", features = ["serde"] }
clap = "2"
csv = "1"
failure = "0.1"
hashids = "*"
serde = { version = "1", features = ["derive"] }
serde_derive = "1"
