[package]
name = "fast"
version = "0.1.0"
edition = "2021"
publish = false

[dependencies]
crossbeam-queue = "0.3"
parking_lot = "0.12"
tokio = { version = "1", features = ["rt-multi-thread", "sync", "time", "macros"] }
