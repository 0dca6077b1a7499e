[package]
name = "rolling_sampler"
version = "0.1.0"
edition = "2021"
publish = false

[dependencies]
triple_buffer = "*"
crossbeam = "*"
dirs-next = "*"
emath = "*"
serde = { version = "*", features = ["derive"] }
