[package]
name = "docker_reroll"
version = "1.0.0"
edition = "2021"
publish = false

[dependencies]
anyhow = "1"
clap = { version = "4", features = ["derive"] }
subprocess = "0.2"
tracing = "0.1"
tracing-subscriber = "0.3"
