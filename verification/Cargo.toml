[package]
name = "moat"
version = "0.1.0"
edition = "2021"
publish = false

[dependencies]
anyhow = "=1.0.104"
async-trait = "=0.1.92"
axum = "=0.7.9"
base64 = "=0.22.1"
blind-rsa-signatures = "=0.18.0"
cat-token = "=0.1.3"
chrono = { version = "=0.4.45", features = ["serde"] }
ciborium = "=0.2.2"
clap = { version = "=4.6.7", features = ["derive", "env"] }
ed25519-dalek = { version = "=2.2.0", features = ["pkcs8", "pem", "rand_core"] }
jsonwebtoken = "=9.3.1"
p256 = { version = "=0.13.2", features = ["ecdsa", "pkcs8", "pem"] }
rand = "=0.9.5"
reqwest = { version = "=0.12.28", default-features = false, features = ["json", "rustls-tls"] }
rsa = { version = "=0.10.0-rc.18", features = ["hazmat"] }
serde = { version = "=1.0.229", features = ["derive"] }
serde_json = "=1.0.154"
sha2 = "=0.10.9"
sqlx = { version = "=0.8.6", default-features = false, features = ["runtime-tokio", "postgres", "uuid", "chrono", "migrate", "macros"] }
thiserror = "=2.0.21"
tokio = { version = "=1.54.1", features = ["full"] }
tower-http = { version = "=0.6.11", features = ["cors", "trace"] }
tracing = "=0.1.44"
tracing-subscriber = { version = "=0.3.23", features = ["env-filter"] }
utoipa = { version = "=5.5.0", features = ["uuid", "chrono"] }
utoipa-swagger-ui = { version = "=8.1.0", features = ["axum", "vendored"] }
uuid = { version = "=1.29.0", features = ["v4", "serde"] }
zip = { version = "=2.2.0", default-features = false, features = ["deflate"] }
