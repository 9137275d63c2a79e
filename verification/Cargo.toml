[package]
name = "lelang"
version = "0.1.0"
edition = "2021"
publish = false

[dependencies]
anyhow = "=1.0.104"
clap = { version = "=3.2.25", features = ["derive"] }
ptree = { version = "=0.4.0", default-features = false }
