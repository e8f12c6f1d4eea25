[package]
name = "wasi_tcp"
version = "0.1.0"
edition = "2021"
publish = false

[dependencies]
anyhow = "1"
cap-net-ext = "2"
cap-std = "2"
io-lifetimes = "2"
rustix = { version = "0.38", features = ["event", "net"] }
serde = "1"
serde_derive = "1"
serde_json = "1"
tokio = { version = "1", features = ["net", "rt"] }

[dev-dependencies]
ipnet = "2"
