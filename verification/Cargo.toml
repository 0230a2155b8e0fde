[package]
name = "async_rt"
version = "0.1.0"
edition = "2021"
publish = false

[dependencies]
mio = "=0.6.23"
futures = "=0.3.34"
slab = "=0.4.12"
tokio = { version = "=0.2.25", default-features = false }
tokio-util = { version = "=0.2.0", default-features = false, features = ["codec"] }
bytes = "=0.5.6"
pin-project-lite = "=0.1.12"
crossbeam = "=0.7.3"
