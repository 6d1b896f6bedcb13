[package]
name = "twat"
version = "0.1.0"
edition = "2021"
publish = false

[dependencies]
regex = "1"
serde = { version = "1", features = ["derive"] }
ron = "0.8"
chrono = "0.4"
clap = "2"
egg-mode = "0.16"
futures = "0.3"
sd-notify = "0.4"
tbot = "0.6"
tokio = { version = "1", features = ["full"] }
tokio-stream = "0.1"
yansi = "0.5"
