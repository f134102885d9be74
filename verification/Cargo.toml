[package]
name = "chat_relay"
version = "0.1.0"
edition = "2021"
publish = false

[dependencies]
futures-util = { version = "*", features = ["sink"] }
tokio = { version = "*", features = ["full"] }
tokio-websockets = { version = "*", features = ["client", "fastrand", "server", "sha1_smol"] }
