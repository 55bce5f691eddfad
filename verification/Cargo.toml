[package]
name = "tor_bridge"
version = "0.1.0"
edition = "2021"
publish = false

[dependencies]
lazy_static = "*"
rlimit = "*"
tokio = { version = "*", features = ["rt-multi-thread", "net", "time"] }
tor-config = "*"
tor-rtcompat = { version = "*", features = ["tokio", "native-tls"] }
