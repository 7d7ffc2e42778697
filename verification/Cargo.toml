[package]
name = "binance_btc_bot"
version = "0.1.0"
edition = "2021"
publish = false

[dependencies]
scraper = "=0.29.0"
reqwest = "=0.11.27"
tokio = { version = "=1.54.1", features = ["macros", "rt-multi-thread", "time"] }
teloxide = { version = "=0.5.3", features = ["auto-send"] }
tokio-util = { version = "=0.6.10", features = ["codec"] }
pretty_env_logger = "0.4"
dotenv = "=0.15.0"
log = "=0.4.34"
