[package]
name = "async_uws"
version = "0.1.0"
edition = "2021"
publish = false

[dependencies]
tokio = { version = "*", features = ["sync", "rt", "rt-multi-thread", "time", "macros"] }
uwebsockets_rs = "*"
