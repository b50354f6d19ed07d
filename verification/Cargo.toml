[package]
name = "lictool"
version = "0.1.0"
edition = "2021"
publish = false

[dependencies]
git2 = "=0.21.0"
reqwest = { version = "=0.12.28", features = ["json"] }
reqwest-middleware = "=0.4.2"
http-cache-reqwest = "=0.16.0"
tokio = { version = "=1.53.2", features = ["macros", "rt-multi-thread"] }
serde_json = "=1.0.151"
clap = { version = "=4.6.7", features = ["derive"] }
clap_complete = "=4.6.11"
anstyle = "=1.0.14"
dialoguer = { version = "=0.12.0", features = ["fuzzy-select"] }
color-print = "=0.3.7"
termion = "=4.0.6"
chrono = "=0.4.45"
dirs = "=7.0.0"
anyhow = "=1.0.104"
