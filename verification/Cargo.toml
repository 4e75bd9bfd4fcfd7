[package]
name = "reqwest_auth"
version = "0.1.0"
edition = "2021"
publish = false

[dependencies]
anyhow = "*"
async-trait = "*"
http = "*"
reqwest-middleware = "*"
token-source = "*"
