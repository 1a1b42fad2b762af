[package]
name = "tomex"
version = "0.1.0"
edition = "2021"
publish = false

[dependencies]
anyhow = "=1.0.104"
axum = "=0.6.20"
chrono = "=0.4.45"
chrono-humanize = "=0.2.3"
clap = "=4.6.7"
crossterm = { version = "=0.29.0", features = ["serde"] }
csv = "=1.4.0"
dateparser = "=0.2.1"
dotenvy = "=0.15.7"
figment = { version = "=0.10.19", features = ["toml", "env"] }
inquire = { version = "=0.9.4", features = ["date", "editor"] }
isbn2 = "=0.4.0"
liquidity_check = "=0.1.0"
local-ip-address = "=0.6.13"
reedline = "=0.52.1"
reqwest = { version = "=0.13.5", default-features = false, features = ["json"] }
serde = { version = "=1.0.229", features = ["derive"] }
serde_json = "=1.0.154"
shlex = "=1.3.0"
sqlx = { version = "=0.7.4", features = ["sqlite", "runtime-tokio"] }
tokio = { version = "=1.54.1", features = ["macros", "rt-multi-thread"] }
toml = "=1.1.8"
uuid = { version = "=1.29.0", features = ["v4"] }
