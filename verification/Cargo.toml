[package]
name = "loanme_webapi"
version = "0.1.0"
edition = "2021"
publish = false

[dependencies]
argon2 = { version = "0.5", features = ["std"] }
sha2 = "0.10"
chrono = { version = "0.4", default-features = false, features = ["clock", "std", "serde"] }
lettre = { version = "0.10", default-features = false, features = ["builder", "smtp-transport", "pool", "tokio1", "tokio1-rustls-tls", "hostname"] }
redis = { version = "0.23", default-features = false, features = ["aio", "tokio-comp", "connection-manager"] }
sqlx = { version = "0.7", default-features = false, features = ["runtime-tokio", "postgres", "chrono", "bigdecimal", "macros", "migrate"] }
axum = "0.6"
tokio = { version = "1", features = ["rt-multi-thread", "macros"] }
tower-http = { version = "0.4", features = ["cors"] }
tracing = "0.1"
tracing-subscriber = "0.3"
dotenvy = "0.15"
futures = "0.3"
bigdecimal = { version = "0.3", features = ["serde"] }
strum = { version = "0.25", features = ["derive"] }
thiserror = "1"
serde = { version = "1", features = ["derive"] }
serde_json = "1"
