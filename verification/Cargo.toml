[package]
name = "epics"
version = "0.1.0"
edition = "2021"
publish = false

[dependencies]
rustc_apfloat = "*"
tokio = { version = "=1.53.2", features = ["sync", "rt-multi-thread", "macros", "time"] }
