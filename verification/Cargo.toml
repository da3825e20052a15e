[package]
name = "blog_api"
version = "0.1.0"
edition = "2021"
publish = false

[dependencies]
alcoholic_jwt = "=10039.0.0"
serde_json = "1"
serde = { version = "1", features = ["derive"] }
hyper = { version = "0.14", features = ["full"] }
hyper-tls = "0.5"
tokio = { version = "1", features = ["full"] }
diesel = { version = "2", features = ["postgres", "r2d2", "chrono"] }
dotenv = "0.15"
chrono = "0.4"
log = "0.4"
env_logger = "0.10"
