[package]
name = "fastwebsockets_stream"
version = "0.1.0"
edition = "2021"
publish = false

[dependencies]
bytes = "1"
fastwebsockets = "0.10"
futures = "0.3"
tokio = { version = "1", features = ["io-util", "rt", "time", "macros"] }

[dev-dependencies]
tokio-util = { version = "0.7", features = ["codec"] }
