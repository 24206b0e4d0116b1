[package]
name = "anchor_rust"
version = "0.1.0"
edition = "2021"
publish = false

[dependencies]
rust_decimal = "=1.43.0"
jsonwebtoken = { version = "=9.3.1", default-features = false }
stellar-base = "=0.7.0"
stellar-horizon = "=0.8.0"
uuid = { version = "=1.29.0", features = ["v4"] }
rand = "=0.8.8"
chrono = { version = "=0.4.45", default-features = false, features = ["clock", "std"] }
serde = { version = "=1.0.229", features = ["derive"] }
serde_json = "=1.0.154"
tokio = { version = "=1.54.1", features = ["rt-multi-thread", "net", "time"] }
axum = { version = "=0.8.9", default-features = false, features = ["http1", "tokio"] }
reqwest = { version = "=0.12.28", default-features = false, features = ["json", "default-tls"] }
sqlx = { version = "0.8", default-features = false, features = ["runtime-tokio", "postgres", "uuid", "chrono", "rust_decimal", "json"] }
tracing = "=0.1.44"
tracing-subscriber = { version = "=0.3.23", default-features = false, features = ["fmt"] }
dotenvy = "=0.15.7"
futures = "=0.3.34"
thiserror = "=2.0.21"
