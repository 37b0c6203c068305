[package]
name = "lang_tutor"
version = "0.1.0"
edition = "2021"
publish = false

[dependencies]
serde_json = "1"
chrono = "0.4"
dirs = "*"
tokio = { version = "1", features = ["rt-multi-thread", "time", "macros"] }
