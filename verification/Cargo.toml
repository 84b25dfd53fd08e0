[package]
name = "wasi_io"
version = "0.1.0"
edition = "2021"
publish = false

[dependencies]
wasi-common = { version = "=46.0.3", default-features = false, features = ["sync"] }
cap-std = "=3.4.6"
