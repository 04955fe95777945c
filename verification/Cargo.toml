[package]
name = "sqlx-crud"
version = "0.1.0"
edition = "2021"
publish = false

[dependencies]
Inflector = "0.11"
syn = "1"
quote = "1"
proc-macro2 = "1"
sqlx = { version = "0.6", features = ["runtime-tokio-rustls", "sqlite"] }
futures = "0.3"
thiserror = "1"
tokio = { version = "1", features = ["macros", "rt-multi-thread"] }
axum = "0.6"
serde = { version = "1", features = ["derive"] }
anyhow = "1"
tracing = "0.1"
tracing-subscriber = "0.3"
