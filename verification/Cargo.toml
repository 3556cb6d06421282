[package]
name = "carton"
version = "0.1.0"
edition = "2021"
publish = false

[dependencies]
anyhow = "1"
clap = { version = "4", features = ["derive"] }
path_macro = "1"
toml = "0.8"
