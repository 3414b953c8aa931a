[package]
name = "cursor_paginator"
version = "0.1.0"
edition = "2021"
publish = false

[dependencies]
tower = { version = "0.4", default-features = false }
tokio = { version = "1", features = ["rt", "sync"] }
tokio-stream = "0.1"
