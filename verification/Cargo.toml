[package]
name = "testjs"
version = "0.1.0"
edition = "2021"
publish = false

[dependencies]
ansi_term = "0.12"
rustc-serialize = "0.3"
toml = "0.5"

[dev-dependencies]
regex = "1"
