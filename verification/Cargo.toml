[package]
name = "krill"
version = "0.1.0"
edition = "2021"
publish = false

[dependencies]
async-stream = "0.3"
clap = { version = "4", features = ["derive", "env"] }
colored = "2"
crossterm = "0.28"
dotenvy = "0.15"
futures-util = "0.3"
ratatui = "0.29"
reqwest = { version = "0.12", default-features = false, features = ["json", "stream", "rustls-tls"] }
serde = { version = "1", features = ["derive"] }
serde_json = "1"
termimad = "0.31"
thiserror = "1"
tokio = { version = "1", features = ["full"] }
