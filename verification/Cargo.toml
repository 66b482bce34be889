[package]
name = "discourse-rs"
version = "0.1.0"
edition = "2021"
publish = false

[dependencies]
actix-web = "4"
bcrypt = "0.15"
chrono = { version = "0.4", features = ["serde"] }
comrak = { version = "*", default-features = false }
diesel = { version = "2", features = ["postgres", "r2d2", "chrono", "uuid", "serde_json"] }
dotenvy = "0.15"
env_logger = "0.11"
futures = "0.3"
jsonwebtoken = "9"
log = "0.4"
md5 = "0.7"
serde = { version = "1", features = ["derive"] }
serde_json = "1"
tokio = { version = "1", features = ["macros", "rt-multi-thread", "time"] }
utoipa = "4"
uuid = { version = "1", features = ["serde"] }
