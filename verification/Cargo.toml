[package]
name = "ntexstudy"
version = "0.1.0"
edition = "2021"
publish = false

[dependencies]
chrono = { version = "=0.4.45", features = ["serde"] }
derive_more = "=0.99.20"
diesel = { version = "=2.3.14", features = ["postgres", "r2d2", "chrono"] }
dotenv = "=0.15.0"
env_logger = "=0.10.2"
futures = "=0.3.34"
log = "=0.4.34"
ntex = { version = "=2.18.0", features = ["tokio", "compress"] }
r2d2 = "=0.8.10"
serde = { version = "=1.0.229", features = ["derive"] }
serde_json = "=1.0.154"
