[package]
name = "watch_restart"
version = "0.1.0"
edition = "2021"
publish = false

[dependencies]
notify = "=5.0.0-pre.3"
tokio = { version = "0.2.22", features = ["macros", "sync", "time"] }
