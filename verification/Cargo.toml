[package]
name = "task_manager"
version = "0.1.0"
edition = "2021"
publish = false

[dependencies]
uuid = { version = "*", features = ["v4"] }
actix-web = "*"
diesel = { version = "*", features = ["postgres"] }
redis = "*"
serde = { version = "*", features = ["derive"] }
serde_json = "*"
serde_yaml = "*"
jsonwebtoken = "*"
log = "*"
env_logger = "*"
