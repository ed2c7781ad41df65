[package]
name = "libutp_rs"
version = "0.1.0"
edition = "2021"
publish = false

[dependencies]
crossbeam = "=0.7.3"
futures = "=0.3.34"
lazy_static = "=1.5.1"
libc = "=0.2.191"
libutp-sys = "=0.1.4"
log = "=0.4.35"
mio = { version = "=0.7.14", features = ["os-poll", "udp"] }
socket2 = "=0.3.19"
tokio = { version = "=0.2.25", default-features = false, features = ["io-util"] }
winapi = { version = "=0.3.9", features = ["ws2def", "ws2tcpip"] }
