[package]
name = "parallelrun"
version = "0.1.0"
edition = "2021"
publish = false

[dependencies]
anyhow = "*"
clap = { version = "*", features = ["derive"] }
crossbeam = "*"
signal-hook = "*"
sysinfo = "*"
