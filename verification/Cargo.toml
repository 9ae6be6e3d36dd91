[package]
name = "kasu"
version = "0.1.0"
edition = "2021"
publish = false

[dependencies]
async-lock = "3"
async-trait = "0.1"
cfg-if = "1"
futures-util = { version = "0.3", features = ["sink"] }
nom = "8"
paste = "1"
rand = "0.9"
reqwest = { version = "0.12", default-features = false, features = ["multipart", "rustls-tls"] }
serde = { version = "1", features = ["derive"] }
serde-env = "*"
serde_json = "1"
slack-morphism = { version = "2", default-features = false }
sqlx = { version = "0.8", default-features = false, features = ["sqlite", "runtime-tokio"] }
thiserror = "*"
tokio = { version = "1", features = ["full"] }
tokio-retry = "0.3"
tokio-tungstenite = "*"
tracing = "0.1"
tracing-subscriber = { version = "0.3", features = ["env-filter"] }
url = "2"
urlencoding = "2"
uuid = { version = "1", features = ["v4"] }
