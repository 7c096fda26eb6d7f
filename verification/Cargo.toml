[package]
name = "turtle_canvas"
version = "0.1.0"
edition = "2021"
publish = false

[dependencies]
tokio = { version = "=1.53.2", features = ["rt-multi-thread", "process", "io-util"] }
futures-util = { version = "=0.3.34", features = ["channel"] }
ipc-channel = "=0.23.0"
