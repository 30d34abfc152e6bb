[package]
name = "run_that"
version = "0.1.0"
edition = "2021"
publish = false

[dependencies]
anyhow = "=1.0.104"
chrono = { version = "=0.4.45", features = ["serde"] }
clap = { version = "=4.6.7", features = ["derive"] }
config = "=0.15.27"
dirs = "=7.0.0"
serde = { version = "=1.0.229", features = ["derive"] }
sha256 = { version = "=1.6.0", default-features = false }
toml = "=1.1.6"
update-informer = "=1.3.0"
