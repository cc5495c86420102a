[package]
name = "yaml_validator_cli"
version = "0.1.0"
edition = "2021"
publish = false

[dependencies]
yaml-rust = "=0.4.5"
clap = { version = "=4.6.7", features = ["derive"] }
