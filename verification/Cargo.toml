[package]
name = "scriptrun"
version = "0.1.0"
edition = "2021"
publish = false

[dependencies]
hyper = { version = "0.14", features = ["http1", "server"] }
tokio = { version = "1", features = ["full"] }
v8 = "*"
