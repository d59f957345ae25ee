[package]
name = "supportcarr"
version = "0.1.0"
edition = "2021"
publish = false

[dependencies]
async-trait = "0.1"
axum = "0.7"
base64 = "0.22"
hmac = "0.12"
redis = { version = "0.25", features = ["aio", "tokio-comp"] }
serde = { version = "1", features = ["derive"] }
serde_urlencoded = "0.7"
sha1 = "0.10"
subtle = "2"
thiserror = "1"
tokio = { version = "1", features = ["macros", "net", "rt-multi-thread", "sync"] }
uuid = { version = "1", features = ["serde", "v4"] }
