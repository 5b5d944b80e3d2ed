[package]
name = "rlua_async"
version = "0.1.0"
edition = "2021"
publish = false

[dependencies]
rlua = "0.19"
futures = "0.3"
scoped-tls = "1"

[dev-dependencies]
futures-timer = "3"
