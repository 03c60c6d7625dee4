[package]
name = "process_supervisor"
version = "0.1.0"
edition = "2021"
publish = false

[dependencies]
uuid = { version = "*", features = ["v4"] }
tokio = { version = "*", features = ["sync", "process", "io-util", "rt-multi-thread", "macros"] }
tokio-stream = { version = "*", features = ["sync"] }
actix-web = "*"
futures = "*"
serde = { version = "*", features = ["derive"] }
