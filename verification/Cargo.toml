[package]
name = "anisystemd"
version = "0.1.0"
edition = "2021"
publish = false

[dependencies]
anyhow = "1"
dotenv = "0.15"
libsystemd = "*"
notify = "*"
tokio = { version = "1", features = ["full"] }
tracing = "0.1"
