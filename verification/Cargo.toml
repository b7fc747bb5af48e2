[package]
name = "rust_postgres"
version = "0.1.0"
edition = "2021"
publish = false

[dependencies]
askama = "=0.12.1"
axum = { version = "=0.7.9", features = ["multipart", "macros"] }
base32 = "=0.5.1"
bcrypt = "=0.17.1"
chrono = "=0.4.45"
data-encoding = "=2.11.1"
dotenv = "=0.15.0"
http = "=1.5.0"
jsonwebtoken = "=9.3.1"
rand = "=0.9.5"
rust_decimal = { version = "=1.43.0", features = ["serde"] }
serde = { version = "=1.0.229", features = ["derive"] }
serde_json = { version = "=1.0.154", features = ["preserve_order"] }
sqlx = { version = "=0.8.6", default-features = false, features = ["runtime-tokio", "postgres", "macros", "rust_decimal"] }
tokio = { version = "=1.54.1", features = ["full"] }
totp-rs = { version = "=5.7.2", features = ["qr", "gen_secret", "otpauth"] }
tower-http = { version = "=0.5.2", features = ["fs", "cors"] }
tracing = "=0.1.44"
