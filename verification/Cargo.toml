[package]
name = "doodleswap"
version = "0.1.0"
edition = "2021"
publish = false

[dependencies]
actix-web = { version = "4", default-features = false, features = ["macros", "cookies"] }
actix-multipart = { version = "0.7", default-features = false }
bcrypt = "0.15"
chrono = { version = "0.4", default-features = false, features = ["clock", "std"] }
env_logger = { version = "0.11", default-features = false }
dotenv = "0.15"
futures-util = { version = "0.3", default-features = false, features = ["std"] }
infer = { version = "0.16", default-features = false, features = ["std"] }
jsonwebtoken = { version = "9", default-features = false }
serde = { version = "1", features = ["derive"] }
serde_json = "1"
sqlx = { version = "0.8", default-features = false, features = ["postgres", "runtime-tokio", "chrono"] }
uuid = { version = "1", features = ["v4"] }
validator = "0.18"
