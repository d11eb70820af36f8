[package]
name = "server_handle"
version = "0.1.0"
edition = "2021"
publish = false

[dependencies]
tokio = { version = "1", default-features = false, features = ["sync", "time", "macros", "rt"] }
