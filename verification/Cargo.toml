[package]
name = "tephrite_rs"
version = "0.1.0"
edition = "2021"
publish = false

[dependencies]
libc = "=0.2.191"
thiserror = "=2.0.21"
uuid = { version = "=1.29.0", features = ["v4"] }
bevy = { version = "=0.19.1", default-features = false }
