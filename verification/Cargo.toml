[package]
name = "portfolio_backend"
version = "0.1.0"
edition = "2021"
publish = false

[dependencies]
axum = { version = "0.6", features = ["multipart"] }
chrono = "0.4"
dotenv = "0.15"
futures-util = "0.3"
http = "0.2"
jsonwebtoken = "9"
mongodb = "2"
serde = { version = "1", features = ["derive"] }
serde_json = "1"
tokio = { version = "1", features = ["full"] }
tokio-util = { version = "0.7", features = ["io"] }
tower-http = { version = "0.4", features = ["cors", "fs"] }
uuid = { version = "1", features = ["v4"] }
