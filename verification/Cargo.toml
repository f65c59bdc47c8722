[package]
name = "registro_web"
version = "0.1.0"
edition = "2021"
publish = false

[dependencies]
actix-web = "=4.15.0"
dotenvy = "=0.15.7"
serde = { version = "=1.0.229", features = ["derive"] }
serde_urlencoded = "0.7"
sqlx = { version = "=0.8.6", default-features = false, features = ["runtime-tokio", "postgres"] }
