[package]
name = "tokio_udp"
version = "0.1.0"
edition = "2021"
publish = false

[dependencies]
bytes = "=1.12.1"
socket2 = { version = "=0.6.5", features = ["all"] }
tokio = { version = "=1.54.1", features = ["io-util", "net", "rt", "rt-multi-thread", "time"] }
