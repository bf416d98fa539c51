[package]
name = "deploy_flake"
version = "0.1.0"
edition = "2021"
publish = false

[dependencies]
anyhow = "1"
backon = "1"
clap = { version = "4", features = ["derive"] }
clap-duration = "*"
duration-human = "*"
futures = "0.3"
openssh = "*"
serde = { version = "1", features = ["derive"] }
serde_json = "1"
tokio = { version = "1", features = ["io-util", "macros", "process", "rt-multi-thread", "time"] }
tracing = "0.1"
tracing-indicatif = "*"
tracing-subscriber = { version = "0.3", features = ["env-filter"] }
url = "2"
