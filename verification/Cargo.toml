[package]
name = "user_backend"
version = "0.1.0"
edition = "2021"
publish = false

[dependencies]
url = "2"
serde = { version = "1", features = ["derive"] }
serde_json = "1"
config = "0.13"
log = "0.4"
env_logger = "0.10"
lazy_static = "1"
tokio = { version = "1", features = ["macros", "rt-multi-thread"] }
actix-web = { version = "4", default-features = false, features = ["macros"] }
reqwest = { version = "0.11", default-features = false }
mongodb = "2"
bson = "2"
