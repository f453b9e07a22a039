[package]
name = "haridokei"
version = "0.1.0"
edition = "2021"
publish = false

[dependencies]
anyhow = "1"
chrono = "0.4"
clap = { version = "4", features = ["derive"] }
confy = "*"
daemonize = "0.5"
log = "0.4"
sd-notify = "0.4"
serde = { version = "1", features = ["derive"] }
signal-hook = "0.3"
systemd-journal-logger = "2"
