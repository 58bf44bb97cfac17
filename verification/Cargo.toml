[package]
name = "tasks"
version = "0.1.0"
edition = "2021"
publish = false

[dependencies]
ink = "*"
parity-scale-codec = { version = "*", features = ["derive"] }
scale-info = { version = "*", features = ["derive"] }
