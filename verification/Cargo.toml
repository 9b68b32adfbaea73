[package]
name = "portal"
version = "0.1.0"
edition = "2021"
publish = false

[dependencies]
uuid = { version = "=1.29.0", features = ["v4", "serde"] }
urlencoding = "=2.1.3"
url = "=2.5.8"
rand = "=0.8.8"
hex = "=0.4.3"
base64 = "=0.22.1"
bcrypt = "=0.15.1"
percent-encoding = "=2.3.2"
chrono = { version = "=0.4.45", features = ["serde"] }
serde = { version = "=1.0.229", features = ["derive"] }
serde_json = "=1.0.154"
axum = { version = "=0.7.9", features = ["macros"] }
tokio = { version = "=1.54.1", features = ["full"] }
sqlx = { version = "=0.8.6", default-features = false, features = ["runtime-tokio", "postgres", "uuid", "chrono", "json", "macros", "ipnetwork"] }
tower = "=0.4.13"
tower-http = { version = "=0.5.2", features = ["cors", "trace"] }
tracing = "=0.1.44"
tracing-subscriber = { version = "=0.3.23", features = ["env-filter"] }
dotenvy = "=0.15.7"
futures-util = "=0.3.34"
async-trait = "=0.1.92"
anyhow = "=1.0.104"
thiserror = "=1.0.69"
ipnetwork = "=0.20.0"
mime_guess = "=2.0.5"
reqwest = { version = "=0.12.28", default-features = false }
rust-embed = "=8.13.0"
