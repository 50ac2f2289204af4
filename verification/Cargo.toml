[package]
name = "gitlab-deploy"
version = "0.1.0"
edition = "2021"
publish = false

[dependencies]
anyhow = "=1.0.104"
chrono = { version = "=0.4.45", default-features = false, features = ["clock", "std"] }
clap = { version = "=4.6.7", features = ["derive", "env"] }
concat-with = "=0.2.11"
execute = "=0.2.15"
log = "=0.4.34"
scanner-rust = "=2.0.18"
simplelog = "=0.12.2"
slash-formatter = "=3.1.7"
tempfile = "=3.27.0"
terminal_size = "=0.3.0"
trim-in-place = "=0.1.8"
validators = { version = "=0.25.3", default-features = false, features = ["std", "derive", "regex", "http_url", "line"] }

[dev-dependencies]
regex = "=1.13.1"
