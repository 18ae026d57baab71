[package]
name = "button_attach_bot"
version = "0.1.0"
edition = "2021"
publish = false

[dependencies]
anyhow = "=1.0.104"
chrono = "=0.4.45"
dotenvy = "=0.15.7"
dptree = "=0.3.0"
log = "=0.4.35"
pretty_env_logger = "=0.5.0"
r2d2 = "=0.8.10"
r2d2_sqlite = "=0.25.0"
reqwest = { version = "=0.12.28", default-features = false, features = ["json", "rustls-tls"] }
rusqlite = { version = "=0.32.1", features = ["bundled"] }
serde = { version = "=1.0.229", features = ["derive"] }
serde_json = "=1.0.154"
takecell = "<0.1.2"
teloxide = { version = "=0.13.0", default-features = false, features = ["macros", "ctrlc_handler", "rustls"] }
tokio = { version = "=1.54.1", features = ["macros", "rt-multi-thread", "time"] }
