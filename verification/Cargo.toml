[package]
name = "character_sheet"
version = "0.1.0"
edition = "2021"
publish = false

[dependencies]
axum = "*"
either = { version = "*", features = ["serde"] }
google-sheets4 = "*"
hyper = "*"
hyper-rustls = "*"
redis = "*"
serde = { version = "*", features = ["derive"] }
serde_json = "*"
tokio = { version = "*", features = ["full"] }
tracing = "*"
tracing-subscriber = "*"
yup-oauth2 = "*"
