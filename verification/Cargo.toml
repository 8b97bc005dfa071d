[package]
name = "runtime"
version = "0.1.0"
edition = "2021"
publish = false

[dependencies]
ash = "0.38"
gpu-allocator = "0.27"
rand = "*"
rand_chacha = "*"
serde_json = "1"
clap = { version = "4", features = ["derive"] }
