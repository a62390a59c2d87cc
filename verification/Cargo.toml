[package]
name = "chat_relay"
version = "0.1.0"
edition = "2021"
publish = false

[dependencies]
argon2 = "0.5"
axum = { version = "0.8", features = ["ws"] }
dotenvy = "0.15"
futures-util = "0.3"
rand = "0.8"
serde_json = "1"
sqlx = { version = "0.8", default-features = false, features = ["mysql", "runtime-tokio"] }
tokio = { version = "1", features = ["full"] }
tokio-tungstenite = "*"
tokio-util = "0.7"
tungstenite = "*"
