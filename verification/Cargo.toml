[package]
name = "nanochat"
version = "0.1.0"
edition = "2021"
publish = false

[dependencies]
rand = "=0.8.8"
tokio = { version = "=1.53.2", features = ["rt", "net", "io-util", "time", "macros"] }
tokio-rustls = "=0.23.4"
rustls-native-certs = "=0.6.3"
