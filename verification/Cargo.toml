[package]
name = "kyrie"
version = "0.1.0"
edition = "2021"
publish = false

[dependencies]
rmp-serde = "1"
serde = { version = "1", features = ["derive"] }
tokio = { version = "1", features = ["rt", "time"] }
r2d2_redis = "*"
sqlx = { version = "*", default-features = false, features = ["postgres", "runtime-tokio", "json"] }
thiserror = "*"
validator = { version = "*", features = ["derive"] }
