[package]
name = "db_config"
version = "0.1.0"
edition = "2021"
publish = false

[dependencies]
dotenvy = "*"
log = "*"
once_cell = "*"
sqlx = { version = "*", default-features = false, features = ["postgres", "runtime-tokio"] }
