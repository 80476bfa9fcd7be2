[package]
name = "browsermux"
version = "0.1.0"
edition = "2021"
publish = false

[dependencies]
regex = "*"
anyhow = "*"
clap = { version = "*", features = ["derive"] }
clap_complete = "*"
clap_complete_nushell = "*"
config = { version = "*", default-features = false, features = ["toml"] }
serde = { version = "*", features = ["derive"] }
tracing = "*"
tracing-subscriber = "*"
url = "*"
