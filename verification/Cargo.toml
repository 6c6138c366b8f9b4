[package]
name = "rust_axum_with_google_oauth"
version = "0.1.0"
edition = "2021"
publish = false

[dependencies]
constant_time_eq = "*"
uuid = { version = "*", features = ["v4"] }
chrono = { version = "*", default-features = false, features = ["clock"] }
serde_json = "*"
oauth2 = { version = "4", default-features = false }
axum = "*"
axum-extra = { version = "*", features = ["typed-header"] }
headers = "*"
tokio = { version = "*", features = ["full"] }
reqwest = { version = "*", default-features = false }
dotenvy = "*"
minijinja = "*"
