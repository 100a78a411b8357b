[package]
name = "api_gateway"
version = "0.1.0"
edition = "2021"
publish = false

[dependencies]
actix-cors = "0.7"
actix-web = { version = "4", default-features = false, features = ["macros"] }
awc = { version = "3", default-features = false }
dotenv = "0.15"
env_logger = "0.11"
futures = "0.3"
log = "0.4"
