[package]
name = "vpn"
version = "0.5.2"
edition = "2021"
publish = false

[dependencies]
anyhow = "1"
async-std = "1"
bytes = "1"
chacha20poly1305 = "0.10"
clap = { version = "4", features = ["derive"] }
flate2 = "1"
futures = "0.3"
futures-timer = "3"
prost = "0.13"
quinn = "0.11"
rand = "0.8"
rustls = { version = "0.23", default-features = false, features = ["ring", "std"] }
thiserror = "1"
tokio = { version = "1", features = ["full"] }
tokio-stream = "0.1"
tokio-util = { version = "0.7", features = ["compat"] }
tracing = "0.1"
tracing-subscriber = "0.3"
