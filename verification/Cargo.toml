[package]
name = "baza"
version = "0.1.0"
edition = "2021"
publish = false

[dependencies]
async-fs = "2"
clap = { version = "4", features = ["derive"] }
futures = { version = "0.3", features = ["executor"] }
tracing = "0.1"
tracing-subscriber = "0.3"
uuid = { version = "1", features = ["v4"] }
