[package]
name = "csgo_matchbot"
version = "0.1.0"
edition = "2021"
publish = false

[dependencies]
steamid = "*"
urlencoding = "*"
serenity = { version = "0.11", features = ["collector"] }
sqlx = { version = "0.6", default-features = false, features = ["runtime-tokio-rustls", "postgres", "macros"] }
reqwest = { version = "0.11", default-features = false, features = ["json", "rustls-tls"] }
tokio = { version = "1", features = ["macros", "rt-multi-thread"] }
futures = "0.3"
serde = { version = "1", features = ["derive"] }
time = "0.3"
log = "0.4"
env_logger = "0.10"
dotenvy = "0.15"
once_cell = "1"
anyhow = "1"
thiserror = "1"
