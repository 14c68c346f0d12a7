[package]
name = "service_kit"
version = "0.1.0"
edition = "2021"
publish = false

[dependencies]
axum = { version = "0.8", default-features = false }
base64 = "0.22"
ciborium = "0.2"
cookie = { version = "0.18", features = ["percent-encode"] }
ed25519-dalek = { version = "2", features = ["rand_core"] }
mime = "0.3"
problem_details = "*"
serde = { version = "1", features = ["derive"] }
serde_bytes = "0.11"
sqlx-core = "0.8"
thiserror = "2"
time = "0.3"
tokio = { version = "1", features = ["rt"] }
tracing = "0.1"

[dev-dependencies]
rand = "0.8"
