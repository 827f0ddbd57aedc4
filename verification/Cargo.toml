[package]
name = "cpp_wrapper_gen"
version = "0.1.0"
edition = "2021"
publish = false

[dependencies]
ansi_term = "0.12"
serde = "1"
serde_json = "1"
toml = "0.8"
