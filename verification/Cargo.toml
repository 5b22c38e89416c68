[package]
name = "evdi"
version = "0.1.0"
edition = "2021"
publish = false

[dependencies]
crossbeam-channel = "=0.5.17"
drm-fourcc = { version = "=2.2.0", features = ["serde"] }
evdi-sys = "=0.4.0"
libc = "=0.2.191"
rand = "=0.8.8"
regex = "=1.13.1"
serde = { version = "=1.0.229", features = ["derive"] }
thiserror = "=1.0.69"
tokio = { version = "=1.54.1", features = ["macros", "rt", "rt-multi-thread", "sync", "time"] }
tracing = "=0.1.44"
