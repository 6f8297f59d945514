[package]
name = "vihaco"
version = "0.1.0"
edition = "2021"
publish = false

[dependencies]
byteorder = "1"
eyre = "0.6"
serde = { version = "1", features = ["derive"] }
toml = "*"
