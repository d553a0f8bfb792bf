[package]
name = "ledger_core"
version = "0.1.0"
edition = "2021"
publish = false

[dependencies]
hmac = "0.12"
jwt = "0.16"
sha2 = "0.10"
uuid = { version = "1", features = ["v4"] }
chrono = "0.4"
serde = { version = "1", features = ["derive"] }
serde_json = "1"
actix-web = "4"
actix-cors = "0.7"
tokio = { version = "1", features = ["rt-multi-thread", "macros", "time"] }
dotenv = "0.15"
env_logger = "0.10"
log = "0.4"
