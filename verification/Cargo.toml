[package]
name = "ferrisdex"
version = "0.1.0"
edition = "2021"
publish = false

[dependencies]
crossterm = "=0.29.0"
dirs = "=7.0.0"
http-cache-reqwest = "=0.16.0"
image = "=0.25.10"
reqwest = "=0.12.28"
reqwest-middleware = "=0.4.2"
rustemon = "=4.8.0"
serde = { version = "=1.0.229", features = ["derive"] }
tokio = { version = "=1.54.1", features = ["full"] }
toml = "=1.1.8"
viuer = "=0.11.0"
