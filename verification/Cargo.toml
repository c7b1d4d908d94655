[package]
name = "tun_tap"
version = "0.1.0"
edition = "2021"
publish = false

[dependencies]
futures = "0.3"
libc = "0.2"
tokio = { version = "1", features = ["net", "rt", "io-util"] }
