[package]
name = "ror_import"
version = "0.1.0"
edition = "2021"
publish = false

[dependencies]
serde_json = "1"
regex = "1"
chrono = "0.4"
log = "0.4"
log4rs = "1"
sqlx = { version = "0.8", features = ["runtime-tokio", "postgres"] }
tokio = { version = "1", features = ["rt", "rt-multi-thread", "macros"] }
