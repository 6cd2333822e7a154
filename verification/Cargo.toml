[package]
name = "pr_weekly"
version = "0.0.1"
edition = "2021"
publish = false

[dependencies]
anyhow = "1"
chrono = { version = "0.4", default-features = false, features = ["std", "now"] }
clap = { version = "4", features = ["derive", "env"] }
dotenv = "0.15"
graphql_client = { version = "*", default-features = false }
handlebars = "*"
lettre = { version = "0.11", default-features = false, features = ["builder", "smtp-transport", "hostname", "tokio1-native-tls"] }
reqwest = { version = "0.12", default-features = false, features = ["json", "native-tls"] }
serde = { version = "1", features = ["derive"] }
serde_json = "1"
thiserror = "1"
tokio = { version = "1", features = ["macros", "rt-multi-thread"] }
tracing = "0.1"
tracing-subscriber = { version = "0.3", features = ["env-filter", "json"] }
url = "2"
