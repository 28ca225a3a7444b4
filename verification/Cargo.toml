[package]
name = "tokio_websocket_client"
version = "0.2.0"
edition = "2021"
publish = false

[dependencies]
flume = "0.11"
futures = "0.3"
log = "0.4"
tokio = { version = "1", features = ["macros", "rt", "time", "sync"] }
