[package]
name = "kremlin"
version = "0.1.0"
edition = "2021"
publish = false

[dependencies]
hmac = "0.12"
sha2 = "0.10"
serde = { version = "1", features = ["derive"] }
serde_json = "1"
axum = { version = "0.8", features = ["multipart"] }
tokio = { version = "1", features = ["full"] }
reqwest = { version = "0.12", default-features = false, features = ["json"] }
fluent-templates = "*"
unic-langid = { version = "*", features = ["macros"] }
csv = "1"
uuid = { version = "1", features = ["v4"] }
chrono = "0.4"
log = "0.4"
dotenvy = "0.15"
anyhow = "1"
tracing-subscriber = { version = "0.3", features = ["env-filter"] }
tower-http = { version = "0.6", features = ["cors"] }
