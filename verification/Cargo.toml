[package]
name = "eventsub_websocket"
version = "0.1.0"
edition = "2021"
publish = false

[dependencies]
serde_json = "=1.0.151"
url = "=2.5.8"
tungstenite = { version = "=0.30.0", features = ["native-tls"] }
