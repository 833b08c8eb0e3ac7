[package]
name = "gymnarium_agents_random"
version = "0.1.0"
edition = "2021"
publish = false

[dependencies]
rand = "0.8"
rand_chacha = "0.3"
serde = { version = "=1.0.229", features = ["derive"] }
