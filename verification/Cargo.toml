[package]
name = "diameter"
version = "0.1.0"
edition = "2021"
publish = false

[dependencies]
tokio = { version = "1", features = ["rt", "rt-multi-thread", "net", "sync", "io-util"] }
native-tls = "0.2"
tokio-native-tls = "0.3"
