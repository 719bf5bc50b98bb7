[package]
name = "jira_cli"
version = "0.1.0"
edition = "2021"
publish = false

[dependencies]
ansi_term = "0.12"
Inflector = "0.11"
url = "2"
clap = "2.33"
reqwest = { version = "0.11", default-features = false, features = ["blocking", "json", "rustls-tls"] }
serde = { version = "1", features = ["derive"] }
serde_derive = "1"
serde_yaml = "0.8"
skim = "0.10"
git2 = { version = "0.18", default-features = false }
env_logger = "0.10"
lazy_static = "1"
simple-error = "0.3"

[dev-dependencies]
rand = "0.8"
