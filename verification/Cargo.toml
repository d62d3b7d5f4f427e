[package]
name = "taod"
version = "0.1.0"
edition = "2021"
publish = false

[dependencies]
anyhow = "1"
clap = { version = "4", features = ["derive"] }
csv = "1"
encoding_rs = "0.8"
uuid = { version = "1", features = ["v4"] }
