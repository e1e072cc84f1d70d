[package]
name = "listo_rs"
version = "0.1.0"
edition = "2021"
publish = false

[dependencies]
anyhow = "=1.0.104"
argon2 = { version = "=0.5.3", features = ["std"] }
axum = { version = "=0.7.9", features = ["ws", "multipart"] }
axum-server = { version = "0.7", features = ["tls-rustls"] }
cookie = "=0.18.2"
fluent = "=0.16.1"
http = "=1.5.0"
intl-memoizer = "=0.5.3"
jsonwebtoken = "=9.3.1"
mysql_async = { version = "=0.34.2", default-features = false, features = ["minimal"] }
reqwest = { version = "=0.12.28", default-features = false, features = ["json", "rustls-tls"] }
serde = { version = "=1.0.229", features = ["derive"] }
serde_json = { version = "=1.0.154", features = ["raw_value"] }
tera = { version = "=1.20.1", default-features = false }
time = "=0.3.55"
tokio = { version = "=1.54.1", features = ["full"] }
tower = { version = "=0.4.13", features = ["util"] }
tower-http = { version = "=0.5.2", features = ["fs", "compression-gzip"] }
unic-langid = { version = "=0.9.6", features = ["macros"] }
url = "=2.5.8"
uuid = { version = "=1.29.1", features = ["v4"] }
validator = { version = "=0.18.1", features = ["derive"] }
webauthn-rs = { version = "=0.5.5", features = ["danger-allow-state-serialisation"] }
