[package]
name = "crust_build"
version = "1.0.0"
edition = "2021"
publish = false

[dependencies]
clap = "2"
reqwest = { version = "0.11", default-features = false, features = ["blocking", "rustls-tls"] }
tempfile = "3"
toml_edit = "*"
zip = { version = "0.6", default-features = false, features = ["deflate"] }
