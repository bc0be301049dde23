[package]
name = "crossover"
version = "0.1.0"
edition = "2021"

[dependencies]
rand = { version = "0.8", default-features = false, features = ["small_rng", "getrandom"] }
