[package]
name = "release"
version = "0.1.0"
edition = "2021"
publish = false

[dependencies]
anyhow = "=1.0.104"
bytes = "=1.12.1"
chrono = "=0.4.45"
clap = { version = "=4.6.7", features = ["derive"] }
colored = "=3.1.1"
dirs = "=6.0.0"
figment = { version = "=0.10.19", features = ["toml", "env"] }
git2 = { version = "=0.20.4", default-features = false }
llm = { version = "=1.3.8", default-features = false }
octocrab = "=0.47.1"
rootcause = "=0.13.0"
semver = "=1.0.28"
serde = { version = "=1.0.229", features = ["derive"] }
tera = { version = "=1.20.1", default-features = false }
tokio = { version = "=1.54.1", features = ["rt-multi-thread", "fs"] }
which = "=8.0.6"
