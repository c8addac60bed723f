[package]
name = "guild_bot"
version = "0.1.0"
edition = "2021"
publish = false

[dependencies]
serenity = "0.9"
sqlx = { version = "0.5", default-features = false, features = ["runtime-tokio-rustls", "postgres", "macros"] }
tokio = { version = "0.2", features = ["macros", "rt-threaded", "time", "sync"] }
serde = { version = "1", features = ["derive"] }
toml = "0.5"
colored = "2"
kankyo = "0.3"
log = "0.4"
pretty_env_logger = "0.4"
