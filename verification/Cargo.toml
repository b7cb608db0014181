[package]
name = "codeflow"
version = "0.1.0"
edition = "2021"
publish = false

[dependencies]
tokio = { version = "1", features = ["macros", "process", "rt-multi-thread", "time"] }
uuid = { version = "1", features = ["v4"] }
