[package]
name = "halving_api"
version = "0.1.0"
edition = "2021"
publish = false

[dependencies]
actix-web = { version = "*", default-features = false, features = ["macros"] }
anyhow = "*"
chrono = { version = "*", default-features = false, features = ["std", "clock"] }
futures-util = "*"
log = "*"
serde = { version = "*", features = ["derive"] }
serde_json = "*"
tokio = { version = "*", features = ["macros", "rt-multi-thread", "net", "time"] }
tokio-tungstenite = { version = "*", default-features = false, features = ["handshake"] }
