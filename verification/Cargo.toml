[package]
name = "kikimaki"
version = "0.1.0"
edition = "2021"
publish = false

[dependencies]
env_logger = "*"
html-escape = "0.2"
log = "0.4"
obws = "*"
openai = "*"
rand = "*"
rouille = "3"
serde = { version = "1", features = ["derive"] }
serde_json = "1"
thiserror = "*"
tokio = { version = "1", features = ["full"] }
tokio-util = "0.7"
twitch-irc = "*"
