[package]
name = "bunk"
version = "0.1.0"
edition = "2021"
publish = false

[dependencies]
serde = "1"

[dev-dependencies]
rand = { version = "0.8", features = ["small_rng"] }
