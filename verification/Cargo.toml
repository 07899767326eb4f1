[package]
name = "client_websocket"
version = "0.1.0"
edition = "2021"
publish = false

[dependencies]
http = "*"
httparse = "*"
tokio-tungstenite = { version = "*", default-features = false }
