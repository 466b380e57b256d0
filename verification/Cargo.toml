[package]
name = "bspinfo"
version = "0.1.0"
edition = "2021"
publish = false

[dependencies]
bspparser = "=0.9.0"
serde = { version = "=1.0.229", features = ["derive"] }
anyhow = "=1.0.104"
