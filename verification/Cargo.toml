[package]
name = "tbank_bot"
version = "0.1.0"
edition = "2021"
publish = false

[dependencies]
urlencoding = "=2.1.3"
rand = "=0.8.8"
anyhow = "=1.0.104"
tokio = { version = "=1.53.2", features = ["rt-multi-thread", "macros", "signal"] }
reqwest = { version = "=0.11.27", default-features = false, features = ["json", "rustls-tls"] }
serde_json = "=1.0.151"
teloxide = { version = "=0.12.2", default-features = false, features = ["macros", "rustls", "ctrlc_handler"] }
dptree = "=0.3.0"
takecell = "=0.1.1"
clap = { version = "=4.6.7", features = ["derive", "env"] }
dotenv = "=0.15.0"
axum = "=0.6.20"
tracing = "=0.1.44"
tracing-subscriber = "=0.3.23"
