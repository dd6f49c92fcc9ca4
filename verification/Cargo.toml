[package]
name = "actix-auth"
version = "0.1.0"
edition = "2021"
publish = false

[dependencies]
actix-web = { version = "4", default-features = false, features = ["macros"] }
argon2 = { version = "0.5", features = ["std"] }
bson = "2"
chrono = { version = "0.4", default-features = false, features = ["clock"] }
dotenv = "0.15"
jsonwebtoken = "9"
mongodb = "2"
serde = { version = "1", features = ["derive"] }
serde_json = "1"
