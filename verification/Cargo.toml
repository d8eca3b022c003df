[package]
name = "gis_server"
version = "0.1.0"
edition = "2021"
publish = false

[dependencies]
argon2 = "=0.5.3"
chrono = "=0.4.45"
uuid = { version = "=1.29.1", features = ["v4", "serde"] }
jsonwebtoken = "=9.3.1"
serde = { version = "=1.0.229", features = ["derive"] }
serde_json = "=1.0.154"
actix-web = "=4.18.1"
sqlx = { version = "=0.7.4", default-features = false, features = ["runtime-tokio", "postgres", "uuid", "json", "macros"] }
dotenv = "=0.15.0"
anyhow = "=1.0.104"
