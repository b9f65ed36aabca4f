[package]
name = "omada_backup"
version = "0.1.0"
edition = "2021"
publish = false

[dependencies]
clap = { version = "3", features = ["derive"] }
clap-verbosity-flag = "1"
env_logger = "0.9"
log = "0.4"
normpath = "0.3"
percent-encoding = "2"
reqwest = { version = "0.11", default-features = false, features = ["blocking", "cookies", "rustls-tls", "json"] }
serde = { version = "1", features = ["derive"] }
serde_json = "1"
