[package]
name = "norn"
version = "0.1.0"
edition = "2021"
publish = false

[dependencies]
bytes = "1"
cordyceps = "0.3"
futures-core = "0.3"
io-uring = "0.6"
libc = "0.2"
log = "0.4"
pin-project-lite = "0.2"
smallvec = "1"
socket2 = "0.5"
thiserror = "1"
tokio = "1"
