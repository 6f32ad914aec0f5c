[package]
name = "executor_trait"
version = "0.1.0"
edition = "2021"
publish = false

[dependencies]
async-trait = "=0.1.92"
tokio = { version = "=1.53.2", default-features = false, features = ["rt", "rt-multi-thread"] }
async-std = { version = "=1.13.2", features = ["unstable"] }
smol = "=2.0.2"
async-global-executor = "=3.1.0"
