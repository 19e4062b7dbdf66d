[package]
name = "wg_gesucht_updater"
version = "0.1.0"
edition = "2021"
publish = false

[dependencies]
anyhow = "1"
clap = { version = "4", features = ["derive"] }
env_logger = "*"
log = "0.4"
reqwest = { version = "*", features = ["json", "cookies"] }
scraper = "*"
serde = { version = "1", features = ["derive"] }
serde_rw = { version = "*", features = ["json", "toml", "yaml"] }
tokio = { version = "1", features = ["macros", "rt-multi-thread"] }
