[package]
name = "rastercar"
version = "0.1.0"
edition = "2021"
publish = false

[dependencies]
chrono = { version = "=0.4.45", features = ["serde"] }
validator = "=0.16.1"
bcrypt = "=0.15.1"
serde = { version = "=1.0.229", features = ["derive"] }
serde_json = { version = "=1.0.154", features = ["preserve_order"] }
axum = "=0.6.20"
http = "=0.2.12"
tokio = { version = "=1.54.1", features = ["full"] }
sea-orm = { version = "=0.12.15", default-features = false, features = ["sqlx-postgres", "runtime-tokio-rustls", "macros", "with-chrono"] }
lapin = "=2.5.5"
jsonwebtoken = "=9.3.1"
url = "=2.5.8"
tracing = "=0.1.44"
rand_chacha = "=0.3.1"
rand_core = { version = "=0.6.4", features = ["getrandom"] }
tokio-stream = "=0.1.19"
tokio-executor-trait = "=2.4.0"
tokio-reactor-trait = "=1.1.0"
tower = "=0.4.13"
tower-http = { version = "=0.4.4", features = ["cors", "trace"] }
