[package]
name = "random_background"
version = "0.1.0"
edition = "2021"
publish = false

[dependencies]
anyhow = "=1.0.104"
directories = "=6.0.0"
nu-path = "=0.110.0"
rand = "=0.8.8"
serde = { version = "=1.0.229", features = ["derive"] }
toml = "=1.1.8"
