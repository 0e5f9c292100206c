[package]
name = "rolling_options"
version = "0.1.0"
edition = "2021"
publish = false

[dependencies]
polars-arrow = { version = "=0.43.1", default-features = false }
serde = { version = "1", features = ["derive"] }
serde_json = "1"
