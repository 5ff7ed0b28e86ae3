[package]
name = "soundbot"
version = "0.1.0"
edition = "2021"
publish = false

[dependencies]
serde_json = "1"
tokio = { version = "1", features = ["macros", "rt-multi-thread", "time", "net"] }
tokio-tungstenite = "*"
futures-util = "0.3"
reqwest = { version = "0.12", default-features = false, features = ["json"] }
