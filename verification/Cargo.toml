[package]
name = "bin-clap-directories"
version = "0.1.0"
edition = "2021"
publish = false

[dependencies]
clap = "=2.34.0"
directories = "=2.0.2"
serde = { version = "=1.0.229", features = ["derive"] }
toml = "=0.5.11"
