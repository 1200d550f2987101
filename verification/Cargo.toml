[package]
name = "event_engine"
version = "0.1.0"
edition = "2021"
publish = false

[dependencies]
atri_ffi = "*"
tokio = { version = "1", features = ["rt-multi-thread", "sync", "time", "macros"] }
serde = { version = "1", features = ["derive"] }
toml = "*"
