[package]
name = "chimney"
version = "0.1.0"
edition = "2021"
publish = false

[dependencies]
anyhow = "*"
async-trait = "*"
bytes = "*"
camino = "*"
clap = { version = "*", features = ["derive"] }
dropshot = "=0.17.1"
flate2 = "=1.1.10"
http = "*"
hyper = "*"
schemars = "0.8"
serde = { version = "*", features = ["derive"] }
tokio = { version = "*", features = ["full"] }
toml = "=1.1.7"
