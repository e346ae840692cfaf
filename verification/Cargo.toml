[package]
name = "neolink"
version = "0.1.0"
edition = "2021"
publish = false

[dependencies]
libc = "0.2"
log = "0.4"
anyhow = "1"
tokio = { version = "1", default-features = false, features = ["rt", "time"] }
