[package]
name = "howser"
version = "0.1.0"
edition = "2021"
publish = false

[dependencies]
clap = "2"
env_logger = "0.5"
toml = "0.4"
