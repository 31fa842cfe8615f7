[package]
name = "system_chunks"
version = "0.1.0"
edition = "2021"
publish = false

[dependencies]
async-trait = "*"
datafusion = { version = "*", default-features = false }
