[package]
name = "talpid_openvpn"
version = "0.1.0"
edition = "2021"
publish = false

[dependencies]
shell-escape = "0.1"
tokio = { version = "1", features = ["io-util", "macros", "process", "rt", "rt-multi-thread", "time"] }
futures = "0.3"
log = "0.4"
