[package]
name = "spotter"
version = "0.1.0"
edition = "2021"
publish = false

[dependencies]
chrono = { version = "=0.4.45", features = ["serde"] }
chrono-tz = "=0.10.4"
rspotify = { version = "0.15", default-features = false, features = ["client-reqwest", "reqwest-rustls-tls", "env-file"] }
sqlx = { version = "=0.8.6", default-features = false, features = ["runtime-tokio", "postgres", "chrono", "migrate"] }
axum = "=0.8.9"
tokio = { version = "=1.54.1", features = ["macros", "rt-multi-thread", "time", "net", "sync"] }
futures = "=0.3.34"
serde = { version = "=1.0.229", features = ["derive"] }
dotenvy = "=0.15.7"
