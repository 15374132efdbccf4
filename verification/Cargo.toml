[package]
name = "user_service"
version = "0.1.0"
edition = "2021"
publish = false

[dependencies]
regex = "1"
validator = "*"
uuid = { version = "1", features = ["v4", "serde"] }
chrono = { version = "0.4", features = ["serde"] }
md5 = "*"
serde = { version = "1", features = ["derive"] }
serde_json = "1"
axum = "0.8"
axum_responses = "*"
async-trait = "0.1"
tokio = { version = "1", features = ["rt-multi-thread", "macros", "net"] }
tower-http = { version = "*", features = ["cors"] }
redis = { version = "*", features = ["tokio-comp"] }
sqlx = { version = "0.8", default-features = false, features = ["postgres", "runtime-tokio", "uuid", "chrono", "macros", "migrate"] }
bcrypt = "*"
