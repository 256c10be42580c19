[package]
name = "master_server"
version = "0.1.0"
edition = "2021"
publish = false

[dependencies]
jwt-simple = { version = "0.12", default-features = false, features = ["pure-rust"] }
argon2 = "0.5"
uuid = { version = "1", features = ["v4"] }
chrono = "0.4"
regex = "1"
zxcvbn = "2"
serde = { version = "1", features = ["derive"] }
serde_json = "1"
log = "0.4"
dotenv = "0.15"
rocket = { version = "0.5", features = ["json"] }
rocket_db_pools = { version = "0.1", features = ["sqlx_postgres"] }
sqlx = { version = "0.7", default-features = false, features = ["postgres", "uuid", "chrono"] }
tokio = { version = "1", features = ["full"] }
rdkafka = "0.36"
