[package]
name = "udsplitter"
version = "0.1.0"
edition = "2021"
publish = false

[dependencies]
getrandom = "0.2"
rand_core = "0.6"
rand_pcg = "0.3"
serde = { version = "1", features = ["derive"] }
serde_json = "1"
socks5-proto = "0.4"
socks5-server = "0.10"
tokio = { version = "1", features = ["io-util", "macros", "net", "rt-multi-thread", "sync", "time"] }
