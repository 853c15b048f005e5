[package]
name = "launch_agent"
version = "0.1.0"
edition = "2021"
publish = false

[dependencies]
bytes = "*"
crossterm = "*"
eyre = "*"
serde = { version = "*", features = ["derive"] }
spinners = "*"
tokio = { version = "*", features = ["rt", "rt-multi-thread", "sync", "signal", "macros"] }
tracing = "*"
uuid = { version = "*", features = ["v4"] }
