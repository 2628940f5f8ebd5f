[package]
name = "redis_lock"
version = "0.1.0"
edition = "2021"
publish = false

[dependencies]
redis = { version = "0.23", features = ["r2d2"] }
r2d2 = "0.8"
tokio = { version = "1", features = ["full"] }
tokio-util = "0.7"
libc = "0.2"
winapi = { version = "0.3", features = ["processthreadsapi"] }
