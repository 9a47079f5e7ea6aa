[package]
name = "devcon"
version = "0.1.0"
edition = "2021"
publish = false

[dependencies]
clap = { version = "*", features = ["derive"] }
colored = "*"
directories = "*"
json5 = "*"
serde = { version = "*", features = ["derive"] }
shellexpand = "*"
toml = "*"
