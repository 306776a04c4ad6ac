[package]
name = "chat_sweeper"
version = "0.1.0"
edition = "2021"
publish = false

[dependencies]
chrono = "=0.4.45"
clap = { version = "=4.6.7", features = ["derive"] }
clap-cargo = "=0.19.0"
glass_pumpkin = "=2.0.0-rc0"
grammers-client = "=0.10.0"
grammers-mtsender = "=0.10.0"
grammers-session = "=0.10.0"
grammers-tl-types = "=0.10.0"
serde = { version = "=1.0.229", features = ["derive"] }
tokio = { version = "=1.53.2", features = ["rt-multi-thread", "macros"] }
toml = "=1.1.7"
