[package]
name = "bpfcap"
version = "0.1.0"
edition = "2021"
publish = false

[dependencies]
libc = "0.2"
rustix = { version = "0.38", features = ["fs"] }
tokio = { version = "1", features = ["net", "rt"] }
