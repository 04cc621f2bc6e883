[package]
name = "filemanager"
version = "0.1.0"
edition = "2021"
publish = false

[dependencies]
axum = { version = "0.8", features = ["multipart", "macros"] }
bcrypt = "0.15"
chrono = "0.4"
dotenv = "0.15"
jsonwebtoken = "9"
lettre = "0.11"
rand = "0.8"
serde = { version = "1", features = ["derive"] }
serde_json = "1"
sqlx = { version = "0.8", default-features = false, features = ["postgres", "runtime-tokio"] }
tokio = { version = "1", features = ["full"] }
utoipa = "5"
utoipa-swagger-ui = { version = "9", features = ["axum"] }
