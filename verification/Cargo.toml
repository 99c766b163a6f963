[package]
name = "session_core"
version = "0.1.0"
edition = "2021"
publish = false

[dependencies]
rand = "0.8"
open = "5"
tokio = { version = "1", features = ["rt-multi-thread", "time", "sync", "macros"] }
