[package]
name = "imp_ror"
version = "0.1.0"
edition = "2021"
publish = false

[dependencies]
toml = "*"
chrono = "*"
clap = { version = "*", features = ["cargo"] }
log = "*"
log4rs = "*"
sqlx = { version = "*", default-features = false, features = ["runtime-tokio", "postgres"] }
