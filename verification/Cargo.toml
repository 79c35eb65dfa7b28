[package]
name = "sqlx4k"
version = "0.1.0"
edition = "2021"
publish = false

[dependencies]
hex = "*"
sqlx = { version = "*", default-features = false, features = ["runtime-tokio", "postgres", "migrate"] }
tokio = { version = "*", default-features = false, features = ["rt-multi-thread"] }
