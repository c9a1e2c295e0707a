[package]
name = "maestro"
version = "0.1.0"
edition = "2021"
publish = false

[dependencies]
arc-swap = "1"
serde = { version = "1", features = ["derive"] }
serde_json = "1"
directories = "*"
libc = "0.2"
signal-hook = "*"
notify = "*"
