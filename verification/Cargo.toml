[package]
name = "kanin"
version = "0.1.0"
edition = "2021"
publish = false

[dependencies]
lapin = "*"
tokio = { version = "*", features = ["rt-multi-thread", "macros", "signal", "sync", "time"] }
futures = "*"
metrics = "*"
tracing = "*"
uuid = { version = "*", features = ["v4"] }
prost = "*"
