[package]
name = "einvoice-bridge"
version = "0.1.0"
edition = "2021"
publish = false

[dependencies]
anyhow = "1"
axum = "0.8"
base64 = "=0.22.1"
dotenvy = "0.15"
p12 = "=0.6.3"
reqwest = { version = "0.12", default-features = false, features = ["json", "rustls-tls"] }
rsa = "=0.9.10"
serde = { version = "1", features = ["derive"] }
serde_jcs = "=0.1.0"
serde_json = "=1.0.154"
sha2 = { version = "=0.10.9", features = ["oid"] }
sqlx = { version = "0.8", default-features = false, features = ["runtime-tokio", "sqlite", "migrate"] }
time = { version = "=0.3.55", features = ["parsing"] }
tokio = { version = "1", features = ["macros", "net", "rt-multi-thread", "signal", "sync", "time"] }
tracing = "0.1"
tracing-subscriber = { version = "0.3", features = ["env-filter"] }
uuid = { version = "=1.29.0", features = ["v7"] }

[dev-dependencies]
rand = "0.8"
