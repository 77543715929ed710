[package]
name = "yandex_cloud_bot"
version = "0.1.0"
edition = "2021"
publish = false

[dependencies]
chrono = "=0.4.45"
dptree = "=0.3.0"
log = "=0.4.34"
log4rs = "=1.4.0"
reqwest = { version = "=0.11.27", features = ["json"] }
rusqlite = { version = "=0.41.0", features = ["bundled"] }
serde = { version = "=1.0.229", features = ["derive"] }
# Not used directly: teloxide-core asks for takecell 0.1, and 0.1.2 needs a
# newer compiler than the other crates do.
takecell = "=0.1.1"
teloxide = { version = "=0.13.0", features = ["macros"] }
tokio = { version = "=1.54.1", features = ["rt-multi-thread", "macros"] }
