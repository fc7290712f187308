[package]
name = "somfy_cli"
version = "0.1.0"
edition = "2021"
publish = false

[dependencies]
anyhow = "=1.0.104"
chrono = "=0.4.45"
clap = { version = "=4.6.7", features = ["derive", "env"] }
dirs = "=6.0.0"
env_logger = "=0.11.11"
log = "=0.4.34"
serde = { version = "=1.0.229", features = ["derive"] }
serde_json = "=1.0.151"
somfy-sdk = { version = "=0.2.2", features = ["generic-exec"] }
tabled = "=0.22.0"
tokio = { version = "=1.53.2", features = ["macros", "rt", "time"] }
