[package]
name = "tutor_service"
version = "0.1.0"
edition = "2021"
publish = false

[dependencies]
uuid = { version = "=1.27.0", features = ["v4", "serde"] }
chrono = { version = "=0.4.45", features = ["serde"] }
actix-web = "=4.15.0"
actix-rt = "=2.15.0"
tokio = { version = "=1.53.2", features = ["macros", "rt-multi-thread"] }
serde = { version = "=1.0.229", features = ["derive"] }
dotenvy = "=0.15.7"
sqlx = { version = "=0.8.6", default-features = false, features = ["runtime-tokio", "postgres", "uuid", "chrono", "bigdecimal"] }
bigdecimal = "=0.4.11"
