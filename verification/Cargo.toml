[package]
name = "vibecat"
version = "0.1.0"
edition = "2021"
publish = false

[dependencies]
clap = { version = "4", features = ["derive"] }
owo-colors = { version = "4", features = ["supports-colors"] }
socket2 = { version = "0.5", features = ["all"] }
