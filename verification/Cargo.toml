[package]
name = "hook_tracer"
version = "0.1.0"
edition = "2021"
publish = false

[dependencies]
serde_json = "1"
tokio = { version = "1", features = ["full"] }
tokio-util = "0.7"
pty-process = { version = "0.4", features = ["async"] }

[dev-dependencies]
regex = "1"
