[package]
name = "mahf_bmf"
version = "0.1.0"
edition = "2021"
publish = false

[dependencies]
eyre = "0.6"
mahf = "*"
serde = { version = "1", features = ["derive"] }
