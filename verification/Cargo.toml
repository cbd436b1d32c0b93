[package]
name = "udp_associate"
version = "0.1.0"
edition = "2021"
publish = false

[dependencies]
bytes = "1"
log = "0.4"
socks5-proto = "*"
socks5-server = "*"
tokio = { version = "1", features = ["rt-multi-thread", "net", "sync", "macros", "io-util", "time"] }
