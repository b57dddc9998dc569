[package]
name = "asr_debugger"
version = "0.1.0"
edition = "2021"
publish = false

[dependencies]
hdrhistogram = { version = "*", default-features = false }
time = { version = "*", features = ["local-offset"] }
livesplit-auto-splitting = "*"
arc-swap = "*"
anyhow = "*"
clap = { version = "*", features = ["derive"] }
