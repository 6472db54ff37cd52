[package]
name = "spotifyd"
version = "0.1.0"
edition = "2021"
publish = false

[dependencies]
librespot = { version = "=0.4.2", default-features = false }
futures = "0.3"
tokio = { version = "1", features = ["rt", "signal"] }
log = "0.4"
getopts = "0.2"
