[package]
name = "moon_unit"
version = "0.1.0"
edition = "2021"
publish = false

[dependencies]
anyhow = "1"
bon = "3"
reqwest = { version = "0.12", default-features = false, features = ["json"] }
serde = "1"
time = "0.3"
