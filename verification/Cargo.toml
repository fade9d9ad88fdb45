[package]
name = "dyper"
version = "0.1.0"
edition = "2021"
publish = false

[dependencies]
hyper = { version = "0.14", features = ["http1", "server", "runtime"] }
tokio = { version = "1", features = ["rt", "rt-multi-thread", "net", "time"] }
reqwest = { version = "0.11", default-features = false }
v8 = "*"
