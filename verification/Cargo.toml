[package]
name = "blob_fetcher"
version = "0.1.0"
edition = "2021"
publish = false

[dependencies]
anyhow = "*"
base64 = "*"
clap = { version = "*", features = ["derive", "env"] }
env_logger = "*"
flate2 = "*"
hex = "*"
log = "*"
reqwest = { version = "*", default-features = false, features = ["json"] }
serde_json = "*"
sha2 = "*"
tokio = { version = "*", features = ["macros", "rt-multi-thread"] }
