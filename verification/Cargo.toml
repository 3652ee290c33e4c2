[package]
name = "artemis"
version = "0.1.0"
edition = "2021"
publish = false

[dependencies]
anyhow = "1"
axum = "0.6"
chrono = "0.4"
csv = "1"
filetime = "0.2"
indicatif = "0.17"
mime = "0.3"
mime_guess = "2"
regex = "1"
serde = { version = "1", features = ["derive"] }
serde_json = "1"
sqlx = { version = "0.6", default-features = false, features = ["sqlite", "runtime-tokio-rustls", "chrono"] }
tokio = { version = "1", features = ["macros", "rt-multi-thread"] }
ureq = "2"
zip = { version = "0.6", default-features = false, features = ["deflate"] }
