[package]
name = "token_gate"
version = "0.1.0"
edition = "2021"
publish = false

[dependencies]
base64 = "*"
hmac = "*"
sha2 = "*"
axum = "*"
tokio = { version = "*", features = ["full"] }
serde_json = "*"
tracing = "*"
tracing-subscriber = "*"
dotenv = "*"
time = { version = "*", features = ["macros", "formatting"] }
