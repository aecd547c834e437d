[package]
name = "ostrich_connect"
version = "0.1.0"
edition = "2021"
publish = false

[dependencies]
secrecy = "0.8"
uuid = { version = "1", features = ["v4", "serde"] }
suppaftp = "6"
ssh2 = "0.9"
dirs = "5"
serde = { version = "1", features = ["derive"] }
serde_json = "1"
tokio = { version = "1", features = ["rt-multi-thread", "macros"] }
async-trait = "0.1"
anyhow = "1"
thiserror = "1"
clap = { version = "4", features = ["derive"] }
crossterm = "0.28"
ratatui = "0.29"
