[package]
name = "loco_laravel"
version = "0.1.0"
edition = "2021"
publish = false

[dependencies]
loco-rs = { version = "=0.16.4", default-features = false, features = ["auth_jwt"] }
axum = "=0.8.9"
serde_json = "=1.0.154"
serde = { version = "=1.0.229", features = ["derive"] }
jsonwebtoken = "=9.3.1"
