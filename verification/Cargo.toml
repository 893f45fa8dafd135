[package]
name = "ipfw"
version = "0.1.0"
edition = "2021"
publish = false

[dependencies]
anyhow = "1"
clap = { version = "4", features = ["derive"] }
socket2 = "0.5"
tokio = { version = "1", features = ["io-util", "macros", "net", "rt-multi-thread", "time"] }
