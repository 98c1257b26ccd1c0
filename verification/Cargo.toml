[package]
name = "device_hub"
version = "0.1.0"
edition = "2021"
publish = false

[dependencies]
actix = "0.10"
actix-rt = "1"
actix-web = "3"
actix-web-actors = "3"
actix-web-httpauth = "0.5"
ctrlc = "3"
data-encoding = "2"
diesel = { version = "1.4", features = ["postgres", "r2d2", "serde_json"] }
diesel_migrations = "1.4"
dotenv = "0.15"
env_logger = "0.8"
futures = "0.3"
openssl = "0.10"
rand = "0.7"
ring = "0.16"
serde = { version = "1", features = ["derive"] }
serde_json = "1"
uuid = { version = "0.8", features = ["v4"] }
