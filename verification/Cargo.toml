[package]
name = "calrs"
version = "0.1.0"
edition = "2021"
publish = false

[dependencies]
anyhow = "1"
async-trait = "0.1"
fluent-bundle = "0.15"
unic-langid = "0.9"
reqwest = { version = "0.12", default-features = false, features = ["json"] }
serde = { version = "1", features = ["derive"] }
serde_json = "1"
sqlx = { version = "0.8", default-features = false, features = ["sqlite", "runtime-tokio"] }
tracing = "0.1"
hmac = "0.12"
sha2 = "0.10"
hex = "0.4"
