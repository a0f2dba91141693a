[package]
name = "backend_core"
version = "0.1.0"
edition = "2021"
publish = false

[dependencies]
argon2rs = "0.2"
axum = "0.5"
axum-sessions = "0.3"
diesel = { version = "1.4", features = ["postgres", "r2d2"] }
dotenv = "0.15"
lazy_static = "1.4"
rayon = "1"
serde = { version = "1", features = ["derive"] }
tokio = { version = "1", features = ["full"] }
tower-http = { version = "0.3", features = ["cors", "trace"] }
tracing = "0.1"
tracing-subscriber = "0.3"
uuid = { version = "0.8", features = ["serde", "v4"] }
validator = "0.16"
