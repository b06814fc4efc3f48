[package]
name = "figure_backend"
version = "0.1.0"
edition = "2021"
publish = false

[dependencies]
unicode-segmentation = "1"
image = { version = "0.24", default-features = false, features = ["jpeg", "png"] }
serde = { version = "1", features = ["derive"] }
serde_json = "1"
axum = { version = "0.6", features = ["multipart"] }
tokio = { version = "1", features = ["macros", "rt-multi-thread"] }
sqlx = { version = "0.7", default-features = false, features = ["postgres", "runtime-tokio"] }
redis = { version = "0.23", default-features = false, features = ["aio", "tokio-comp", "connection-manager"] }
tower-cookies = "0.9"
cookie = "0.17"
uuid = { version = "1", features = ["v4"] }
bytes = "1"
anyhow = "1"
aws-sdk-s3 = "*"
aws-credential-types = "*"
tower-http = { version = "0.4", features = ["cors", "limit"] }
http = "0.2"
url = "2"
tracing = "0.1"
async-trait = "0.1"
onesignal-rust-api = "*"
