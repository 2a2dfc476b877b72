[package]
name = "socket_session"
version = "0.1.0"
edition = "2021"
publish = false

[dependencies]
form_urlencoded = "1"
futures = "0.3"
hyper = { version = "1", features = ["http1", "server"] }
hyper-tungstenite = "0.13"
hyper-util = { version = "0.1", features = ["tokio"] }
serde_json = "1"
thiserror = "1"
tokio = { version = "1", features = ["net", "rt", "sync", "time"] }
tokio-tungstenite = "0.21"
tungstenite = "0.21"
uuid = "1"
