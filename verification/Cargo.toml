[package]
name = "memo_api"
version = "0.1.0"
edition = "2021"
publish = false

[dependencies]
chrono = { version = "*", default-features = false, features = ["clock"] }
actix-web = { version = "*", default-features = false, features = ["macros"] }
actix-cors = "*"
actix-files = "*"
reqwest = { version = "*", default-features = false, features = ["json"] }
serde = { version = "*", features = ["derive"] }
serde_json = "*"
env_logger = "*"
log = "*"
futures-util = "*"
once_cell = "*"
