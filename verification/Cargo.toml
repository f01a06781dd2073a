[package]
name = "iroh-store"
version = "0.1.0"
edition = "2021"
publish = false

[dependencies]
anyhow = "1"
config = "0.13"
serde = { version = "1", features = ["derive"] }
