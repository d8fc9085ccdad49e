[package]
name = "budget_api"
version = "0.1.0"
edition = "2021"
publish = false

[dependencies]
bcrypt = "0.15"
chrono = { version = "0.4", features = ["serde"] }
serde = { version = "1", features = ["derive"] }
serde_json = "1"
actix-web = "4"
actix-cors = "0.7"
actix-extensible-rate-limit = { version = "0.4", default-features = false, features = ["dashmap"] }
tokio = { version = "1", features = ["sync", "macros", "rt-multi-thread"] }
sqlx = { version = "0.8", default-features = false, features = ["mysql", "runtime-tokio", "chrono"] }
dotenvy = "0.15"
