[package]
name = "lenvironment"
version = "0.1.0"
edition = "2021"
publish = false

[dependencies]
anyhow = "1"
clap = { version = "4", features = ["derive"] }
colored = "*"
directories = "*"
indicatif = "*"
serde = { version = "1", features = ["derive"] }
toml = "*"
whoami = "*"
