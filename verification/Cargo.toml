[package]
name = "dispatch"
version = "0.1.0"
edition = "2021"
publish = false

[dependencies]
alloy-primitives = { version = "=1.7.3", features = ["serde"] }
alloy-sol-types = "=1.7.3"
anyhow = "=1.0.104"
axum = "=0.8.9"
hex = "=0.4.3"
reqwest = { version = "=0.12.28", default-features = false, features = ["json"] }
serde = { version = "=1.0.229", features = ["derive"] }
serde_json = "=1.0.154"
sqlx = { version = "=0.8.6", default-features = false, features = ["postgres", "runtime-tokio"] }
tokio = { version = "=1.54.1", features = ["rt", "time"] }
toml = "=0.8.23"
tracing = "=0.1.44"
