[package]
name = "rate_limited_api"
version = "0.1.0"
edition = "2021"
publish = false

[dependencies]
actix = "=0.13.5"
actix-web = "=4.18.1"
actix-web-httpauth = "=0.8.3"
chrono = { version = "=0.4.45", features = ["serde"] }
diesel = { version = "=1.4.8", features = ["postgres", "r2d2", "chrono", "network-address"] }
diesel_migrations = "=1.4.0"
dotenv_codegen = "=0.15.0"
env_logger = "=0.10.2"
futures-util = "=0.3.34"
ipnetwork = "=0.18.0"
jsonwebtoken = "=8.3.0"
serde = { version = "=1.0.229", features = ["derive"] }
serde_json = "=1.0.154"
